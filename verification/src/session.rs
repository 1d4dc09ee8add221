//! The session: the callsign and the token that one run hands to the next,
//! and the text format in which they are stored.
//!
//! The format is one `key=value` per line. The key ends at the first `=` of
//! its line and the value at the second, so a value that holds a `=` is cut
//! there when it is read again.

use crate::text::{
    after_first, before_first, cut_after, cut_before, find_char, has_char, index_of,
    lemma_index_of, lemma_index_of_is, same_text, slice,
};
use vstd::prelude::*;
use vstd::string::*;

verus! {

/// The entries as texts.
pub open spec fn entry_views(v: Seq<(String, String)>) -> Seq<(Seq<char>, Seq<char>)> {
    Seq::new(v.len(), |i: int| (v[i].0@, v[i].1@))
}

/// The mapping that a list of entries stands for: a later entry replaces an
/// earlier one with the same key.
pub open spec fn entries_map(es: Seq<(Seq<char>, Seq<char>)>) -> Map<Seq<char>, Seq<char>>
    decreases es.len(),
{
    if es.len() == 0 {
        Map::empty()
    } else {
        entries_map(es.drop_last()).insert(es.last().0, es.last().1)
    }
}

/// No key occurs twice.
pub open spec fn distinct_keys(es: Seq<(Seq<char>, Seq<char>)>) -> bool {
    forall|i: int, j: int| 0 <= i < j < es.len() ==> (#[trigger] es[i]).0 != (#[trigger] es[j]).0
}

/// The keys of the mapping are the keys of the entries, and with distinct
/// keys each entry's value is the one its key is mapped to.
pub proof fn lemma_entries_map(es: Seq<(Seq<char>, Seq<char>)>)
    ensures
        forall|k: Seq<char>|
            (#[trigger] entries_map(es).contains_key(k)) <==> (exists|i: int|
                0 <= i < es.len() && (#[trigger] es[i]).0 == k),
        distinct_keys(es) ==> (forall|i: int|
            0 <= i < es.len() ==> entries_map(es)[(#[trigger] es[i]).0] == es[i].1),
    decreases es.len(),
{
    if es.len() > 0 {
        let front = es.drop_last();
        lemma_entries_map(front);
        assert forall|k: Seq<char>|
            (#[trigger] entries_map(es).contains_key(k)) <==> (exists|i: int|
                0 <= i < es.len() && (#[trigger] es[i]).0 == k) by {
            if entries_map(es).contains_key(k) {
                if k == es.last().0 {
                    assert(es[es.len() - 1].0 == k);
                } else {
                    assert(entries_map(front).contains_key(k));
                    let i = choose|i: int| 0 <= i < front.len() && (#[trigger] front[i]).0 == k;
                    assert(es[i].0 == k);
                }
            }
            if exists|i: int| 0 <= i < es.len() && (#[trigger] es[i]).0 == k {
                let i = choose|i: int| 0 <= i < es.len() && (#[trigger] es[i]).0 == k;
                if i < es.len() - 1 {
                    assert(front[i].0 == k);
                }
            }
        }
        if distinct_keys(es) {
            assert(distinct_keys(front)) by {
                assert forall|i: int, j: int| 0 <= i < j < front.len() implies (#[trigger] front[i]).0
                    != (#[trigger] front[j]).0 by {
                    assert(es[i].0 != es[j].0);
                }
            }
            assert forall|i: int| 0 <= i < es.len() implies entries_map(es)[(#[trigger] es[i]).0]
                == es[i].1 by {
                if i < es.len() - 1 {
                    assert(front[i] == es[i]);
                    assert(es[i].0 != es[es.len() - 1].0);
                }
            }
        }
    }
}

/// With distinct keys the mapping has as many keys as there are entries.
pub proof fn lemma_entries_count(es: Seq<(Seq<char>, Seq<char>)>)
    requires
        distinct_keys(es),
    ensures
        entries_map(es).dom().finite(),
        entries_map(es).dom().len() == es.len(),
    decreases es.len(),
{
    if es.len() > 0 {
        let front = es.drop_last();
        assert(distinct_keys(front)) by {
            assert forall|i: int, j: int| 0 <= i < j < front.len() implies (#[trigger] front[i]).0
                != (#[trigger] front[j]).0 by {
                assert(es[i].0 != es[j].0);
            }
        }
        lemma_entries_count(front);
        lemma_entries_map(front);
        if entries_map(front).contains_key(es.last().0) {
            let i = choose|i: int| 0 <= i < front.len() && (#[trigger] front[i]).0 == es.last().0;
            assert(es[i].0 != es[es.len() - 1].0);
        }
        assert(entries_map(es).dom() =~= entries_map(front).dom().insert(es.last().0));
    }
}

/// Replacing the value of an entry replaces the value that its key is mapped to.
pub proof fn lemma_entries_map_update(es: Seq<(Seq<char>, Seq<char>)>, i: int, value: Seq<char>)
    requires
        distinct_keys(es),
        0 <= i < es.len(),
    ensures
        distinct_keys(es.update(i, (es[i].0, value))),
        entries_map(es.update(i, (es[i].0, value))) == entries_map(es).insert(es[i].0, value),
{
    let key = es[i].0;
    let after = es.update(i, (key, value));
    assert(distinct_keys(after)) by {
        assert forall|a: int, b: int| 0 <= a < b < after.len() implies (#[trigger] after[a]).0 != (
        #[trigger] after[b]).0 by {
            assert(es[a].0 != es[b].0);
        }
    }
    lemma_entries_map(es);
    lemma_entries_map(after);
    let left = entries_map(after);
    let right = entries_map(es).insert(key, value);
    assert forall|k: Seq<char>| left.contains_key(k) <==> right.contains_key(k) by {
        if left.contains_key(k) {
            let j = choose|j: int| 0 <= j < after.len() && (#[trigger] after[j]).0 == k;
            assert(es[j].0 == k);
        }
        if right.contains_key(k) {
            if k == key {
                assert(after[i].0 == k);
            } else {
                let j = choose|j: int| 0 <= j < es.len() && (#[trigger] es[j]).0 == k;
                assert(after[j].0 == k);
            }
        }
    }
    assert forall|k: Seq<char>| left.contains_key(k) implies left[k] == right[k] by {
        let j = choose|j: int| 0 <= j < after.len() && (#[trigger] after[j]).0 == k;
        assert(left[after[j].0] == after[j].1);
        if j != i {
            assert(es[j].0 == k);
            assert(entries_map(es)[es[j].0] == es[j].1);
            assert(es[i].0 != es[j].0);
        }
    }
    assert(left =~= right);
}

/// The key under which the callsign is stored.
pub open spec fn callsign_key() -> Seq<char> {
    "callsign"@
}

/// The key under which the token is stored.
pub open spec fn token_key() -> Seq<char> {
    "token"@
}

/// Whether a session holds a token that is not empty.
pub open spec fn has_token(m: Map<Seq<char>, Seq<char>>) -> bool {
    m.contains_key(token_key()) && m[token_key()].len() > 0
}

/// The value under a key, or the empty text where the key is absent.
pub open spec fn value_or_empty(m: Map<Seq<char>, Seq<char>>, key: Seq<char>) -> Seq<char> {
    if m.contains_key(key) {
        m[key]
    } else {
        Seq::empty()
    }
}

/// The session with which a login or a registration replaces the old one:
/// the callsign and the token, and nothing else.
pub open spec fn fresh_session(callsign: Seq<char>, token: Seq<char>) -> Map<
    Seq<char>,
    Seq<char>,
> {
    Map::empty().insert(callsign_key(), callsign).insert(token_key(), token)
}

/// Puts a value in the place of the value of the entry at `i`.
fn replace_entry(entries: &mut Vec<(String, String)>, i: usize, key: String, value: String)
    requires
        distinct_keys(entry_views(old(entries)@)),
        i < old(entries)@.len(),
        old(entries)@[i as int].0@ == key@,
    ensures
        distinct_keys(entry_views(final(entries)@)),
        entry_views(final(entries)@).len() == entry_views(old(entries)@).len(),
        entries_map(entry_views(final(entries)@)) == entries_map(
            entry_views(old(entries)@),
        ).insert(key@, value@),
{
    let ghost before = entry_views(entries@);
    proof {
        lemma_entries_map_update(before, i as int, value@);
    }
    entries.set(i, (key, value));
    assert(entry_views(entries@) =~= before.update(i as int, (before[i as int].0, value@)));
}

/// Adds an entry whose key is not held yet.
fn append_entry(entries: &mut Vec<(String, String)>, key: String, value: String)
    requires
        distinct_keys(entry_views(old(entries)@)),
        forall|j: int|
            0 <= j < old(entries)@.len() ==> (#[trigger] entry_views(old(entries)@)[j]).0 != key@,
    ensures
        distinct_keys(entry_views(final(entries)@)),
        entry_views(final(entries)@).len() == entry_views(old(entries)@).len() + 1,
        entries_map(entry_views(final(entries)@)) == entries_map(
            entry_views(old(entries)@),
        ).insert(key@, value@),
{
    let ghost before = entry_views(entries@);
    entries.push((key, value));
    let ghost after = entry_views(entries@);
    assert(after =~= before.push((key@, value@)));
    assert(after.drop_last() =~= before);
    assert forall|a: int, b: int| 0 <= a < b < after.len() implies (#[trigger] after[a]).0 != (
    #[trigger] after[b]).0 by {
        if b < before.len() {
            assert(before[a].0 != before[b].0);
        } else {
            assert(before[a].0 != key@);
        }
    }
}

/// A mapping from keys to values, each key held once.
pub struct Session {
    entries: Vec<(String, String)>,
}

impl View for Session {
    type V = Map<Seq<char>, Seq<char>>;

    open spec fn view(&self) -> Map<Seq<char>, Seq<char>> {
        entries_map(self.entries())
    }
}

impl Session {
    /// The entries in the order in which they are written out.
    pub closed spec fn entries(&self) -> Seq<(Seq<char>, Seq<char>)> {
        entry_views(self.entries@)
    }

    /// No key is held twice. This holds of every session.
    #[verifier::type_invariant]
    pub open spec fn wf(&self) -> bool {
        distinct_keys(self.entries())
    }

    /// The empty session.
    pub fn new() -> (r: Session)
        ensures
            r.wf(),
            r@ == Map::<Seq<char>, Seq<char>>::empty(),
            r.entries().len() == 0,
    {
        Session { entries: Vec::new() }
    }

    /// The number of keys.
    pub fn len(&self) -> (r: usize)
        ensures
            r == self.entries().len(),
            r == self@.dom().len(),
    {
        proof {
            use_type_invariant(self);
            lemma_entries_count(self.entries());
        }
        self.entries.len()
    }

    /// Where the entry of a key stands, or the number of entries.
    fn position(&self, key: &str) -> (r: usize)
        ensures
            r <= self.entries().len(),
            r < self.entries().len() ==> self.entries()[r as int].0 == key@,
            r == self.entries().len() ==> forall|j: int|
                0 <= j < self.entries().len() ==> (#[trigger] self.entries()[j]).0 != key@,
    {
        let n: usize = self.entries.len();
        let mut i: usize = 0;
        while i < n
            invariant
                i <= n,
                n == self.entries().len(),
                forall|j: int| 0 <= j < i ==> (#[trigger] self.entries()[j]).0 != key@,
            decreases n - i,
        {
            if same_text(self.entries[i].0.as_str(), key) {
                return i;
            }
            i = i + 1;
        }
        i
    }

    /// Whether a key is held.
    pub fn contains_key(&self, key: &str) -> (r: bool)
        ensures
            r == self@.contains_key(key@),
    {
        proof {
            lemma_entries_map(self.entries());
        }
        let i: usize = self.position(key);
        i < self.entries.len()
    }

    /// The value under a key.
    pub fn get(&self, key: &str) -> (r: Option<&String>)
        ensures
            r.is_some() == self@.contains_key(key@),
            r.is_some() ==> r.unwrap()@ == self@[key@],
    {
        proof {
            use_type_invariant(self);
            lemma_entries_map(self.entries());
        }
        let i: usize = self.position(key);
        if i < self.entries.len() {
            assert(self@[self.entries()[i as int].0] == self.entries()[i as int].1);
            Some(&self.entries[i].1)
        } else {
            None
        }
    }

    /// The value under a key, or the empty text where the key is absent.
    pub fn get_or_empty(&self, key: &str) -> (r: String)
        ensures
            r@ == value_or_empty(self@, key@),
    {
        match self.get(key) {
            Some(value) => value.clone(),
            None => String::new(),
        }
    }

    /// Puts a value under a key, in place of the one that was there.
    pub fn insert(&mut self, key: String, value: String)
        ensures
            final(self).wf(),
            final(self)@ == old(self)@.insert(key@, value@),
            final(self).entries().len() == old(self).entries().len() + (if old(
                self,
            )@.contains_key(key@) {
                0int
            } else {
                1int
            }),
    {
        proof {
            use_type_invariant(&*self);
            lemma_entries_map(self.entries());
        }
        let i: usize = self.position(key.as_str());
        let mut entries: Vec<(String, String)> = Vec::new();
        assert(entry_views(entries@) =~= Seq::<(Seq<char>, Seq<char>)>::empty());
        core::mem::swap(&mut self.entries, &mut entries);
        if i < entries.len() {
            replace_entry(&mut entries, i, key, value);
        } else {
            append_entry(&mut entries, key, value);
        }
        self.entries = entries;
    }

    /// Removes every entry.
    pub fn clear(&mut self)
        ensures
            final(self).wf(),
            final(self)@ == Map::<Seq<char>, Seq<char>>::empty(),
    {
        let entries: Vec<(String, String)> = Vec::new();
        assert(entry_views(entries@) =~= Seq::<(Seq<char>, Seq<char>)>::empty());
        self.entries = entries;
    }
}

/// Whether a token is held and is not empty.
pub fn check_local_token(game_status: &Session) -> (r: bool)
    ensures
        r == has_token(game_status@),
{
    match game_status.get("token") {
        Some(token) => token.as_str().unicode_len() > 0,
        None => false,
    }
}

/// The session that holds this callsign and this token and nothing else.
pub fn reset_local_status(callsign: String, token: String) -> (r: Session)
    ensures
        r.wf(),
        r@ == fresh_session(callsign@, token@),
{
    let mut session = Session::new();
    session.insert(String::from_str("callsign"), callsign);
    session.insert(String::from_str("token"), token);
    session
}

/// The line that stores an entry.
pub open spec fn line_of(e: (Seq<char>, Seq<char>)) -> Seq<char> {
    e.0 + seq!['='] + e.1 + seq!['\n']
}

/// The text that stores a list of entries: their lines in order.
pub open spec fn serialized(es: Seq<(Seq<char>, Seq<char>)>) -> Seq<char>
    decreases es.len(),
{
    if es.len() == 0 {
        Seq::empty()
    } else {
        serialized(es.drop_last()) + line_of(es.last())
    }
}

/// The entry that a line stores: the key before its first `=`, the value
/// between its first `=` and its second.
pub open spec fn entry_of_line(line: Seq<char>) -> (Seq<char>, Seq<char>) {
    (before_first(line, '='), before_first(after_first(line, '='), '='))
}

/// The first line of a text, without the line feed that ends it and without a
/// carriage return before that line feed.
pub open spec fn first_line(text: Seq<char>) -> Seq<char> {
    let raw = before_first(text, '\n');
    if index_of(text, '\n') < text.len() && raw.len() > 0 && raw.last() == '\r' {
        raw.drop_last()
    } else {
        raw
    }
}

/// The entries that a text stores, one for each line, in order.
pub open spec fn parsed_entries(text: Seq<char>) -> Seq<(Seq<char>, Seq<char>)>
    decreases text.len(),
{
    if text.len() == 0 {
        Seq::empty()
    } else {
        proof {
            lemma_index_of(text, '\n');
        }
        seq![entry_of_line(first_line(text))] + parsed_entries(after_first(text, '\n'))
    }
}

/// The session that a text stores.
pub open spec fn session_of_text(text: Seq<char>) -> Map<Seq<char>, Seq<char>> {
    entries_map(parsed_entries(text))
}

/// Reads a session from the text of its file. The text of a missing file is
/// the empty text, which gives the empty session.
pub fn read_game(saved: &str) -> (r: Session)
    ensures
        r.wf(),
        r@ == session_of_text(saved@),
{
    let n: usize = saved.unicode_len();
    let mut session = Session::new();
    let mut pos: usize = 0;
    let ghost mut done: Seq<(Seq<char>, Seq<char>)> = Seq::empty();
    proof {
        assert(saved@.skip(0) =~= saved@);
    }
    while pos < n
        invariant
            pos <= n,
            n == saved@.len(),
            session.wf(),
            session@ == entries_map(done),
            parsed_entries(saved@) == done + parsed_entries(saved@.skip(pos as int)),
        decreases n - pos,
    {
        let ghost rest = saved@.skip(pos as int);
        let end: usize = find_char(saved, '\n', pos);
        let mut stop: usize = end;
        if end < n && end > pos && saved.get_char(end - 1) == '\r' {
            stop = end - 1;
        }
        let line = slice(saved, pos, stop);
        proof {
            lemma_index_of(rest, '\n');
            assert(before_first(rest, '\n') =~= saved@.subrange(pos as int, end as int));
            assert(line@ =~= first_line(rest));
        }
        let key = cut_before(line.as_str(), '=');
        let tail = cut_after(line.as_str(), '=');
        let value = cut_before(tail.as_str(), '=');
        let ghost entry = (key@, value@);
        session.insert(key, value);
        let next: usize = if end < n {
            end + 1
        } else {
            n
        };
        proof {
            assert(after_first(rest, '\n') =~= saved@.skip(next as int));
            assert(done.push(entry).drop_last() =~= done);
            assert(done + (seq![entry] + parsed_entries(saved@.skip(next as int))) =~= done.push(
                entry,
            ) + parsed_entries(saved@.skip(next as int)));
            done = done.push(entry);
        }
        pos = next;
    }
    proof {
        assert(done + Seq::<(Seq<char>, Seq<char>)>::empty() =~= done);
    }
    session
}

/// Writes a session as the text of its file: each entry as `key=value` and a
/// line feed.
pub fn save_game(game_status: &Session) -> (r: String)
    ensures
        r@ == serialized(game_status.entries()),
{
    let n: usize = game_status.entries.len();
    let mut out = String::new();
    let mut i: usize = 0;
    proof {
        assert(game_status.entries().take(0) =~= Seq::<(Seq<char>, Seq<char>)>::empty());
    }
    while i < n
        invariant
            i <= n,
            n == game_status.entries().len(),
            out@ == serialized(game_status.entries().take(i as int)),
        decreases n - i,
    {
        let ghost before = out@;
        proof {
            reveal_strlit("=");
            reveal_strlit("\n");
            assert("="@ =~= seq!['=']);
            assert("\n"@ =~= seq!['\n']);
            assert(game_status.entries().take(i + 1).drop_last() =~= game_status.entries().take(
                i as int,
            ));
        }
        out.append(game_status.entries[i].0.as_str());
        out.append("=");
        out.append(game_status.entries[i].1.as_str());
        out.append("\n");
        assert(out@ =~= before + line_of(game_status.entries()[i as int]));
        i = i + 1;
    }
    proof {
        assert(game_status.entries().take(n as int) =~= game_status.entries());
    }
    out
}

/// An entry that the format stores without loss: neither its key nor its
/// value holds a `=` or a line feed, and its value does not end in a carriage
/// return.
pub open spec fn storable(e: (Seq<char>, Seq<char>)) -> bool {
    &&& !has_char(e.0, '=')
    &&& !has_char(e.0, '\n')
    &&& !has_char(e.1, '=')
    &&& !has_char(e.1, '\n')
    &&& !(e.1.len() > 0 && e.1.last() == '\r')
}

/// A session of which every entry is stored without loss.
pub open spec fn storable_session(m: Map<Seq<char>, Seq<char>>) -> bool {
    forall|k: Seq<char>| m.contains_key(k) ==> storable((k, #[trigger] m[k]))
}

/// The text of a list of entries is the line of the first, then the text of
/// the others.
pub proof fn lemma_serialized_front(es: Seq<(Seq<char>, Seq<char>)>)
    requires
        es.len() > 0,
    ensures
        serialized(es) == line_of(es[0]) + serialized(es.skip(1)),
    decreases es.len(),
{
    let front = es.drop_last();
    if front.len() == 0 {
        assert(es.skip(1).len() == 0);
        assert(es.last() == es[0]);
        assert(serialized(front) =~= Seq::<char>::empty());
        assert(serialized(es.skip(1)) =~= Seq::<char>::empty());
        assert(serialized(es) =~= line_of(es[0]) + serialized(es.skip(1)));
    } else {
        lemma_serialized_front(front);
        let tail = es.skip(1);
        assert(tail.drop_last() =~= front.skip(1));
        assert(tail.last() == es.last());
        assert(front[0] == es[0]);
        assert(serialized(tail) == serialized(front.skip(1)) + line_of(es.last()));
        assert(serialized(es) == (line_of(es[0]) + serialized(front.skip(1))) + line_of(
            es.last(),
        ));
        assert((line_of(es[0]) + serialized(front.skip(1))) + line_of(es.last()) =~= line_of(
            es[0],
        ) + (serialized(front.skip(1)) + line_of(es.last())));
    }
}

/// Reading the line of a storable entry, followed by any text, gives the
/// entry and then what the text behind it gives.
pub proof fn lemma_parse_line(e: (Seq<char>, Seq<char>), rest: Seq<char>)
    requires
        storable(e),
    ensures
        parsed_entries(line_of(e) + rest) == seq![e] + parsed_entries(rest),
{
    let text = line_of(e) + rest;
    let raw = e.0 + seq!['='] + e.1;
    let p = raw.len() as int;
    assert forall|j: int| 0 <= j < p implies text[j] != '\n' by {
        if j < e.0.len() {
            assert(e.0[j] != '\n');
        } else if j > e.0.len() {
            assert(e.1[j - e.0.len() - 1] != '\n');
        }
    }
    assert(text[p] == '\n');
    lemma_index_of_is(text, '\n', p);
    assert(before_first(text, '\n') =~= raw);
    assert(first_line(text) == raw) by {
        if e.1.len() > 0 {
            assert(raw.last() == e.1.last());
        } else {
            assert(raw.last() == '=');
        }
    }
    assert(after_first(text, '\n') =~= rest);
    assert forall|j: int| 0 <= j < e.0.len() implies raw[j] != '=' by {
        assert(e.0[j] != '=');
    }
    lemma_index_of_is(raw, '=', e.0.len() as int);
    assert(before_first(raw, '=') =~= e.0);
    assert(after_first(raw, '=') =~= e.1);
    lemma_index_of(e.1, '=');
    assert(before_first(e.1, '=') =~= e.1);
}

/// Reading the text of storable entries gives the entries.
pub proof fn lemma_parse_serialized(es: Seq<(Seq<char>, Seq<char>)>)
    requires
        forall|i: int| 0 <= i < es.len() ==> storable(#[trigger] es[i]),
    ensures
        parsed_entries(serialized(es)) == es,
    decreases es.len(),
{
    if es.len() == 0 {
        assert(parsed_entries(serialized(es)) =~= es);
    } else {
        let tail = es.skip(1);
        assert forall|i: int| 0 <= i < tail.len() implies storable(#[trigger] tail[i]) by {
            assert(tail[i] == es[i + 1]);
        }
        lemma_parse_serialized(tail);
        lemma_serialized_front(es);
        lemma_parse_line(es[0], serialized(tail));
        assert(seq![es[0]] + tail =~= es);
    }
}

/// Round trip: the text that `save_game` writes for a session is read by
/// `read_game` as the same session, provided that no key and no value holds
/// a `=` or a line feed and no value ends in a carriage return. A value with
/// a `=` is cut at it, and a carriage return before the line feed is taken
/// for a part of the line ending.
pub proof fn law_save_then_read(session: Session)
    requires
        session.wf(),
        storable_session(session@),
    ensures
        session_of_text(serialized(session.entries())) == session@,
{
    let es = session.entries();
    lemma_entries_map(es);
    assert forall|i: int| 0 <= i < es.len() implies storable(#[trigger] es[i]) by {
        assert(session@.contains_key(es[i].0));
        assert(session@[es[i].0] == es[i].1);
    }
    lemma_parse_serialized(es);
}

} // verus!
