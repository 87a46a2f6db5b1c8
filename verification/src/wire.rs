//! Building blocks for the exact JSON wire text the remote service
//! requires: fields under fixed keys, blank-not-null optional values,
//! and comma-joined record lists.

use vstd::prelude::*;
use crate::json::{quoted, dec_int, append_quoted, append_i64, push_char};

verus! {

/// A member key as it stands on the wire: `"key":`.
pub open spec fn key_prefix(k: Seq<char>) -> Seq<char> {
    seq!['"'] + k + seq!['"', ':']
}

/// A string member: `"key":"value"`, with the value escaped.
pub open spec fn str_field(k: Seq<char>, v: Seq<char>) -> Seq<char> {
    key_prefix(k) + quoted(v)
}

/// A number member: `"key":n`.
pub open spec fn num_field(k: Seq<char>, n: int) -> Seq<char> {
    key_prefix(k) + dec_int(n)
}

/// What an optional string contributes to the wire: its text when set,
/// the empty string when unset. The key is always written.
pub open spec fn opt_view(o: Option<String>) -> Seq<char> {
    match o {
        None => Seq::empty(),
        Some(s) => s@,
    }
}

/// An optional string member: the key with the value, or the key with
/// the empty string — never a missing key, never a null.
pub open spec fn opt_str_field(k: Seq<char>, o: Option<Seq<char>>) -> Seq<char> {
    match o {
        None => str_field(k, Seq::empty()),
        Some(v) => str_field(k, v),
    }
}

/// An unset optional member serializes exactly as the empty string
/// would: the key is present with an empty-string value.
pub proof fn lemma_blank_optional_field(k: Seq<char>, o: Option<Seq<char>>)
    requires
        o is None,
    ensures
        opt_str_field(k, o) == str_field(k, Seq::empty()),
        opt_str_field(k, o) == opt_str_field(k, Some(Seq::empty())),
{
}

/// The members of `parts` in order, separated by commas.
pub open spec fn comma_joined(parts: Seq<Seq<char>>) -> Seq<char>
    decreases parts.len(),
{
    if parts.len() == 0 {
        Seq::empty()
    } else if parts.len() == 1 {
        parts[0]
    } else {
        comma_joined(parts.drop_last()) + seq![','] + parts.last()
    }
}

/// Extending a joined list by one more part.
pub proof fn lemma_comma_joined_step(parts: Seq<Seq<char>>, i: int)
    requires
        0 <= i < parts.len(),
    ensures
        i == 0 ==> comma_joined(parts.subrange(0, 1)) == parts[0],
        i > 0 ==> comma_joined(parts.subrange(0, i + 1)) == comma_joined(parts.subrange(0, i))
            + seq![','] + parts[i],
{
    let t = parts.subrange(0, i + 1);
    assert(t.drop_last() =~= parts.subrange(0, i));
    assert(t.last() == parts[i]);
}

/// The empty string slice.
pub fn empty_str() -> (r: &'static str)
    ensures
        r@ == Seq::<char>::empty(),
{
    proof {
        reveal_strlit("");
        assert(""@ =~= Seq::<char>::empty());
    }
    ""
}

/// The text of an optional string: empty when unset.
pub fn opt_str(o: &Option<String>) -> (r: &str)
    ensures
        r@ == opt_view(*o),
{
    match o {
        Some(s) => s.as_str(),
        None => empty_str(),
    }
}

/// A fresh wire object: the opening brace.
pub fn begin_obj() -> (r: String)
    ensures
        r@ == seq!['{'],
{
    let mut out = String::new();
    push_char(&mut out, '{');
    proof {
        assert(out@ =~= seq!['{']);
    }
    out
}

/// Appends the member separator.
pub fn comma(out: &mut String)
    ensures
        final(out)@ == old(out)@ + seq![','],
{
    push_char(out, ',');
}

/// Appends the closing brace.
pub fn end_obj(out: &mut String)
    ensures
        final(out)@ == old(out)@ + seq!['}'],
{
    push_char(out, '}');
}

/// Appends `"k":`.
pub fn append_key(out: &mut String, k: &str)
    ensures
        final(out)@ == old(out)@ + key_prefix(k@),
{
    push_char(out, '"');
    out.append(k);
    push_char(out, '"');
    push_char(out, ':');
    assert(final(out)@ =~= old(out)@ + key_prefix(k@));
}

/// A fresh string holding one `"k":"v"` member.
pub fn begin_str_field(k: &str, v: &str) -> (r: String)
    ensures
        r@ == str_field(k@, v@),
{
    let mut out = String::new();
    append_key(&mut out, k);
    append_quoted(&mut out, v);
    proof {
        assert(out@ =~= str_field(k@, v@));
    }
    out
}

/// Appends `"k":"v"`, escaping the value.
pub fn append_str_field(out: &mut String, k: &str, v: &str)
    ensures
        final(out)@ == old(out)@ + str_field(k@, v@),
{
    append_key(out, k);
    append_quoted(out, v);
    assert(final(out)@ =~= old(out)@ + str_field(k@, v@));
}

/// Appends `"k":"v"` for an optional value, blank when unset.
pub fn append_opt_str_field(out: &mut String, k: &str, o: &Option<String>)
    ensures
        final(out)@ == old(out)@ + opt_str_field(
            k@,
            match *o {
                Some(s) => Some(s@),
                None => None,
            },
        ),
{
    append_str_field(out, k, opt_str(o));
}

/// Appends `"k":n`.
pub fn append_num_field(out: &mut String, k: &str, n: i64)
    ensures
        final(out)@ == old(out)@ + num_field(k@, n as int),
{
    append_key(out, k);
    append_i64(out, n);
    assert(final(out)@ =~= old(out)@ + num_field(k@, n as int));
}

/// A record with an exact wire form.
pub trait Wire {
    /// The record is well formed enough to serialize.
    spec fn wire_wf(&self) -> bool;

    /// The exact wire text of the record.
    spec fn wire_text(&self) -> Seq<char>;

    /// Appends the wire text of the record.
    fn append_to(&self, out: &mut String)
        requires
            self.wire_wf(),
        ensures
            final(out)@ == old(out)@ + self.wire_text(),
    ;
}

/// The wire texts of the records of `s`, in order.
pub open spec fn wires_of<T: Wire>(s: Seq<T>) -> Seq<Seq<char>> {
    Seq::new(s.len(), |i: int| s[i].wire_text())
}

/// A wire array holding the given parts: `[p1,p2,...]`.
pub open spec fn arr(parts: Seq<Seq<char>>) -> Seq<char> {
    seq!['['] + comma_joined(parts) + seq![']']
}

/// A fresh wire array: the opening bracket.
pub fn begin_arr() -> (r: String)
    ensures
        r@ == seq!['['],
{
    let mut out = String::new();
    push_char(&mut out, '[');
    proof {
        assert(out@ =~= seq!['[']);
    }
    out
}

/// Appends an opening brace for a nested object.
pub fn nest_obj(out: &mut String)
    ensures
        final(out)@ == old(out)@ + seq!['{'],
{
    push_char(out, '{');
}

/// Appends the wire array of the records of `items`.
pub fn append_record_array<T: Wire>(out: &mut String, items: &Vec<T>)
    requires
        forall|j: int| 0 <= j < items@.len() ==> (#[trigger] items@[j]).wire_wf(),
    ensures
        final(out)@ == old(out)@ + arr(wires_of(items@)),
{
    let ghost parts = wires_of(items@);
    let mut inner = begin_arr();
    proof {
        assert(seq!['['] + comma_joined(parts.subrange(0, 0)) =~= seq!['[']);
    }
    let mut i: usize = 0;
    while i < items.len()
        invariant
            parts == wires_of(items@),
            parts.len() == items@.len(),
            forall|j: int| 0 <= j < items@.len() ==> (#[trigger] items@[j]).wire_wf(),
            i <= items@.len(),
            inner@ == seq!['['] + comma_joined(parts.subrange(0, i as int)),
        decreases items@.len() - i,
    {
        if i > 0 {
            comma(&mut inner);
        }
        items[i].append_to(&mut inner);
        proof {
            lemma_comma_joined_step(parts, i as int);
            assert(inner@ =~= seq!['['] + comma_joined(parts.subrange(0, i as int + 1)));
        }
        i = i + 1;
    }
    push_char(&mut inner, ']');
    proof {
        assert(parts.subrange(0, parts.len() as int) =~= parts);
        assert(inner@ =~= arr(parts));
    }
    out.append(inner.as_str());
}

/// The wire value for an overtime-cancellation flag.
pub open spec fn cancellation_view(cancellation: bool) -> Seq<char> {
    if cancellation { "1"@ } else { "Ο"@ }
}

/// The Ergani wire value for an overtime-cancellation flag.
pub fn get_ergani_overtime_cancellation(cancellation: bool) -> (r: String)
    ensures
        r@ == cancellation_view(cancellation),
{
    if cancellation {
        String::from_str("1")
    } else {
        String::from_str("Ο")
    }
}

} // verus!
