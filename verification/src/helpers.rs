//! Helpers of the command router: the parts of a waypoint's name, the
//! failure for a missing token, and the report of a finished operation.

use crate::json::{copy_of, json_text, member, member_text};
use crate::response::{outcome_view, Cause, ClassifiedResult, Failure, FailureView};
use crate::text::{
    after_first, before_first, contains_char, cut_after, cut_before, has_char, trim_matches,
    trimmed, CharClass,
};
use vstd::prelude::*;
use vstd::string::*;

verus! {

/// The quotation mark, which is trimmed off a name that was taken from JSON.
pub open spec fn quote() -> CharClass {
    CharClass::Only('"')
}

/// The system of a waypoint: the first two of the parts that hyphens
/// separate, joined by a hyphen, each without quotation marks around it.
pub open spec fn system_of(location: Seq<char>) -> Seq<char> {
    trimmed(before_first(location, '-'), quote()) + "-"@ + trimmed(
        before_first(after_first(location, '-'), '-'),
        quote(),
    )
}

/// The name of a waypoint: all of it, without quotation marks around it.
pub open spec fn waypoint_of(location: Seq<char>) -> Seq<char> {
    trimmed(location, quote())
}

/// Whether a text names a waypoint: it has at least two parts.
pub open spec fn is_location(location: Seq<char>) -> bool {
    has_char(location, '-')
}

/// Splits the name of a waypoint, such as `X1-DF55-20250Z`, into its system,
/// `X1-DF55`, and the waypoint, which is the whole name.
pub fn location_split(location: &str) -> (r: (String, String))
    requires
        is_location(location@),
    ensures
        r.0@ == system_of(location@),
        r.1@ == waypoint_of(location@),
{
    let first = cut_before(location, '-');
    let rest = cut_after(location, '-');
    let second = cut_before(rest.as_str(), '-');
    let mut system = trim_matches(first.as_str(), '"');
    system.append("-");
    let second_plain = trim_matches(second.as_str(), '"');
    system.append(second_plain.as_str());
    let waypoint = trim_matches(location, '"');
    (system, waypoint)
}

/// Splits the name of a waypoint where it is one, and says so where it is
/// none.
pub fn checked_location_split(location: &str) -> (r: Option<(String, String)>)
    ensures
        r.is_some() == is_location(location@),
        r.is_some() ==> r.unwrap().0@ == system_of(location@) && r.unwrap().1@ == waypoint_of(
            location@,
        ),
{
    if contains_char(location, '-') {
        Some(location_split(location))
    } else {
        None
    }
}

/// The failure of a command that needs a token where none is held.
pub open spec fn no_token_failure() -> FailureView {
    FailureView {
        message: "No token found. Please login first."@,
        cause: Cause::PreconditionFailure,
    }
}

/// The failure of a command that needs a token where none is held.
pub fn no_token_error() -> (r: Result<(), Failure>)
    ensures
        r.is_err(),
        r.unwrap_err()@ == no_token_failure(),
{
    Err(Failure::new("No token found. Please login first.", Cause::PreconditionFailure))
}

/// What a finished operation has to show: a line for the user and, where it
/// is to be shown, the member `data` of the reply.
#[derive(Debug)]
pub struct Report {
    pub headline: String,
    pub data: Option<serde_json::Value>,
}

/// A report as texts.
pub struct ReportView {
    pub headline: Seq<char>,
    pub data: Option<Seq<char>>,
}

impl View for Report {
    type V = ReportView;

    open spec fn view(&self) -> ReportView {
        ReportView {
            headline: self.headline@,
            data: match self.data {
                Some(doc) => Some(json_text(doc)),
                None => None,
            },
        }
    }
}

/// The end of an operation with its texts.
pub open spec fn ending_view(r: Result<Report, Failure>) -> Result<ReportView, FailureView> {
    match r {
        Ok(report) => Ok(report@),
        Err(failure) => Err(failure@),
    }
}

/// The report of a success.
pub open spec fn report_of(doc: Seq<char>, headline: Seq<char>, with_data: bool) -> ReportView {
    ReportView {
        headline,
        data: if with_data {
            Some(member_text(doc, "data"@))
        } else {
            None
        },
    }
}

/// The end of an operation, from its classified reply: a success is
/// reported, a failure is handed on as it is.
pub open spec fn acted_on(
    result: Result<Seq<char>, FailureView>,
    headline: Seq<char>,
    with_data: bool,
) -> Result<ReportView, FailureView> {
    match result {
        Ok(doc) => Ok(report_of(doc, headline, with_data)),
        Err(failure) => Err(failure),
    }
}

/// Ends an operation on its classified reply. A success gives the line
/// `print_statement` to show and, if `print_data` is set, the member `data`
/// of the reply; a failure stays the failure it is.
pub fn act_on_req_result(
    req_result: ClassifiedResult,
    print_statement: &str,
    print_data: bool,
) -> (r: Result<Report, Failure>)
    ensures
        ending_view(r) == acted_on(outcome_view(req_result), print_statement@, print_data),
{
    match req_result {
        Ok(doc) => {
            let data = if print_data {
                Some(copy_of(member(&doc, "data")))
            } else {
                None
            };
            Ok(Report { headline: String::from_str(print_statement), data })
        },
        Err(failure) => Err(failure),
    }
}

} // verus!
