//! A small JSON model: values, exact text building blocks (decimal
//! numerals, string escaping), and a parser for the read path.

use vstd::prelude::*;

verus! {

/// Mathematical JSON value: what a parsed document denotes.
/// Numbers keep their numeral text so that no precision is lost.
pub enum JsonV {
    Null,
    Bool(bool),
    Num(Seq<char>),
    Str(Seq<char>),
    Arr(Seq<JsonV>),
    Obj(Seq<(Seq<char>, JsonV)>),
}

/// Executable JSON value, the result of parsing a response body.
pub enum Json {
    Null,
    Bool(bool),
    Num(String),
    Str(String),
    Arr(Vec<Json>),
    Obj(Vec<(String, Json)>),
}

impl Json {
    /// The mathematical value this node denotes.
    pub open spec fn v(self) -> JsonV
        decreases self,
    {
        match self {
            Json::Null => JsonV::Null,
            Json::Bool(b) => JsonV::Bool(b),
            Json::Num(s) => JsonV::Num(s@),
            Json::Str(s) => JsonV::Str(s@),
            Json::Arr(es) => JsonV::Arr(
                Seq::new(
                    es@.len(),
                    |i: int| if 0 <= i < es@.len() { es@[i].v() } else { JsonV::Null },
                ),
            ),
            Json::Obj(ps) => JsonV::Obj(
                Seq::new(
                    ps@.len(),
                    |i: int|
                        if 0 <= i < ps@.len() {
                            (ps@[i].0@, ps@[i].1.v())
                        } else {
                            (Seq::empty(), JsonV::Null)
                        },
                ),
            ),
        }
    }
}

/// The decimal digit characters.
pub open spec fn digit_char(d: int) -> char {
    if d == 0 { '0' }
    else if d == 1 { '1' }
    else if d == 2 { '2' }
    else if d == 3 { '3' }
    else if d == 4 { '4' }
    else if d == 5 { '5' }
    else if d == 6 { '6' }
    else if d == 7 { '7' }
    else if d == 8 { '8' }
    else { '9' }
}

/// The decimal numeral of a natural number, most significant digit first.
pub open spec fn dec_nat(n: nat) -> Seq<char>
    decreases n,
{
    if n < 10 { seq![digit_char(n as int)] } else { dec_nat(n / 10) + seq![digit_char((n % 10) as int)] }
}

/// The decimal numeral of an integer: a minus sign for negatives.
pub open spec fn dec_int(n: int) -> Seq<char> {
    if n < 0 { seq!['-'] + dec_nat((-n) as nat) } else { dec_nat(n as nat) }
}

/// Relies on std's `String::push`: appends exactly one character.
#[verifier::external_body]
pub fn push_char(out: &mut String, c: char)
    ensures
        final(out)@ == old(out)@ + seq![c],
{
    out.push(c);
}

/// Appends the decimal numeral of `n`.
pub fn append_u64(out: &mut String, n: u64)
    ensures
        final(out)@ == old(out)@ + dec_nat(n as nat),
    decreases n,
{
    if n < 10 {
        push_char(out, digit_to_char(n));
    } else {
        append_u64(out, n / 10);
        push_char(out, digit_to_char(n % 10));
        assert(final(out)@ =~= old(out)@ + dec_nat(n as nat));
    }
}

/// The character for a single decimal digit.
pub fn digit_to_char(d: u64) -> (c: char)
    requires
        d < 10,
    ensures
        c == digit_char(d as int),
{
    match d {
        0 => '0',
        1 => '1',
        2 => '2',
        3 => '3',
        4 => '4',
        5 => '5',
        6 => '6',
        7 => '7',
        8 => '8',
        _ => '9',
    }
}

/// Appends the decimal numeral of a signed integer.
pub fn append_i64(out: &mut String, n: i64)
    ensures
        final(out)@ == old(out)@ + dec_int(n as int),
{
    if n < 0 {
        push_char(out, '-');
        if n == i64::MIN {
            append_u64(out, 9223372036854775808u64);
        } else {
            append_u64(out, (-n) as u64);
        }
        assert(final(out)@ =~= old(out)@ + dec_int(n as int));
    } else {
        append_u64(out, n as u64);
    }
}

/// The lowercase hexadecimal digit characters.
pub open spec fn hex_char(d: int) -> char {
    if d == 0 { '0' }
    else if d == 1 { '1' }
    else if d == 2 { '2' }
    else if d == 3 { '3' }
    else if d == 4 { '4' }
    else if d == 5 { '5' }
    else if d == 6 { '6' }
    else if d == 7 { '7' }
    else if d == 8 { '8' }
    else if d == 9 { '9' }
    else if d == 10 { 'a' }
    else if d == 11 { 'b' }
    else if d == 12 { 'c' }
    else if d == 13 { 'd' }
    else if d == 14 { 'e' }
    else { 'f' }
}

/// How one character appears inside a JSON string literal: quotes and
/// backslashes get a backslash escape, control characters a short or
/// `\u00..` escape, and every other character stands as itself.
pub open spec fn escape_char(c: char) -> Seq<char> {
    if c == '"' { seq!['\\', '"'] }
    else if c == '\\' { seq!['\\', '\\'] }
    else if c == '\u{8}' { seq!['\\', 'b'] }
    else if c == '\t' { seq!['\\', 't'] }
    else if c == '\n' { seq!['\\', 'n'] }
    else if c == '\u{c}' { seq!['\\', 'f'] }
    else if c == '\r' { seq!['\\', 'r'] }
    else if (c as u32) < 0x20 {
        seq!['\\', 'u', '0', '0', hex_char(c as u32 as int / 16), hex_char(c as u32 as int % 16)]
    } else {
        seq![c]
    }
}

/// The body of a JSON string literal for the character sequence `s`.
pub open spec fn escape_seq(s: Seq<char>) -> Seq<char>
    decreases s.len(),
{
    if s.len() == 0 { Seq::empty() } else { escape_seq(s.drop_last()) + escape_char(s.last()) }
}

/// A complete JSON string literal: quotes around the escaped body.
pub open spec fn quoted(s: Seq<char>) -> Seq<char> {
    seq!['"'] + escape_seq(s) + seq!['"']
}

fn hex_to_char(d: u32) -> (c: char)
    requires
        d < 16,
    ensures
        c == hex_char(d as int),
{
    match d {
        0 => '0',
        1 => '1',
        2 => '2',
        3 => '3',
        4 => '4',
        5 => '5',
        6 => '6',
        7 => '7',
        8 => '8',
        9 => '9',
        10 => 'a',
        11 => 'b',
        12 => 'c',
        13 => 'd',
        14 => 'e',
        _ => 'f',
    }
}

fn append_escaped_char(out: &mut String, c: char)
    ensures
        final(out)@ == old(out)@ + escape_char(c),
{
    if c == '"' {
        push_char(out, '\\');
        push_char(out, '"');
        assert(final(out)@ =~= old(out)@ + escape_char(c));
    } else if c == '\\' {
        push_char(out, '\\');
        push_char(out, '\\');
        assert(final(out)@ =~= old(out)@ + escape_char(c));
    } else if c == '\u{8}' {
        push_char(out, '\\');
        push_char(out, 'b');
        assert(final(out)@ =~= old(out)@ + escape_char(c));
    } else if c == '\t' {
        push_char(out, '\\');
        push_char(out, 't');
        assert(final(out)@ =~= old(out)@ + escape_char(c));
    } else if c == '\n' {
        push_char(out, '\\');
        push_char(out, 'n');
        assert(final(out)@ =~= old(out)@ + escape_char(c));
    } else if c == '\u{c}' {
        push_char(out, '\\');
        push_char(out, 'f');
        assert(final(out)@ =~= old(out)@ + escape_char(c));
    } else if c == '\r' {
        push_char(out, '\\');
        push_char(out, 'r');
        assert(final(out)@ =~= old(out)@ + escape_char(c));
    } else if (c as u32) < 0x20 {
        push_char(out, '\\');
        push_char(out, 'u');
        push_char(out, '0');
        push_char(out, '0');
        push_char(out, hex_to_char((c as u32) / 16));
        push_char(out, hex_to_char((c as u32) % 16));
        assert(final(out)@ =~= old(out)@ + escape_char(c));
    } else {
        push_char(out, c);
        assert(final(out)@ =~= old(out)@ + escape_char(c));
    }
}

proof fn lemma_escape_seq_step(s: Seq<char>, i: int)
    requires
        0 <= i < s.len(),
    ensures
        escape_seq(s.subrange(0, i + 1)) == escape_seq(s.subrange(0, i)) + escape_char(s[i]),
{
    let t = s.subrange(0, i + 1);
    assert(t.drop_last() =~= s.subrange(0, i));
    assert(t.last() == s[i]);
}

/// Appends `s` JSON-escaped (without the surrounding quotes).
pub fn append_escaped(out: &mut String, s: &str)
    ensures
        final(out)@ == old(out)@ + escape_seq(s@),
{
    let n = s.unicode_len();
    let ghost base = out@;
    let mut i: usize = 0;
    while i < n
        invariant
            n == s@.len(),
            i <= n,
            out@ == base + escape_seq(s@.subrange(0, i as int)),
        decreases n - i,
    {
        let c = s.get_char(i);
        append_escaped_char(out, c);
        proof {
            lemma_escape_seq_step(s@, i as int);
            assert(out@ =~= base + escape_seq(s@.subrange(0, i as int + 1)));
        }
        i = i + 1;
    }
    proof {
        assert(s@.subrange(0, n as int) =~= s@);
    }
}

/// Appends `s` as a complete JSON string literal.
pub fn append_quoted(out: &mut String, s: &str)
    ensures
        final(out)@ == old(out)@ + quoted(s@),
{
    push_char(out, '"');
    append_escaped(out, s);
    push_char(out, '"');
    assert(final(out)@ =~= old(out)@ + quoted(s@));
}

// ---------- the grammar of JSON texts ----------

/// JSON insignificant whitespace.
pub open spec fn is_ws(c: char) -> bool {
    c == ' ' || c == '\t' || c == '\n' || c == '\r'
}

/// A decimal digit.
pub open spec fn is_digit(c: char) -> bool {
    48 <= c as u32 <= 57
}

/// The first index at or after `i` that does not hold whitespace.
pub open spec fn skip_ws(s: Seq<char>, i: nat) -> nat
    decreases s.len() - i,
{
    if i < s.len() && is_ws(s[i as int]) { skip_ws(s, (i + 1) as nat) } else { i }
}

/// The first index at or after `i` that does not hold a digit.
pub open spec fn skip_digits(s: Seq<char>, i: nat) -> nat
    decreases s.len() - i,
{
    if i < s.len() && is_digit(s[i as int]) { skip_digits(s, (i + 1) as nat) } else { i }
}

/// The value of a hexadecimal digit, or -1.
pub open spec fn hex_val(c: char) -> int {
    let u = c as u32;
    if 48 <= u <= 57 { u - 48 }
    else if 97 <= u <= 102 { u - 87 }
    else if 65 <= u <= 70 { u - 55 }
    else { -1 }
}

/// The value of the four hexadecimal digits at `i`, or -1.
pub open spec fn hex4(s: Seq<char>, i: nat) -> int {
    if i + 4 <= s.len() {
        let a = hex_val(s[i as int]);
        let b = hex_val(s[i as int + 1]);
        let c = hex_val(s[i as int + 2]);
        let d = hex_val(s[i as int + 3]);
        if a >= 0 && b >= 0 && c >= 0 && d >= 0 { a * 4096 + b * 256 + c * 16 + d } else { -1 }
    } else {
        -1
    }
}

/// What a short backslash escape stands for.
pub open spec fn short_escape(e: char) -> Option<char> {
    if e == '"' { Some('"') }
    else if e == '\\' { Some('\\') }
    else if e == '/' { Some('/') }
    else if e == 'b' { Some('\u{8}') }
    else if e == 'f' { Some('\u{c}') }
    else if e == 'n' { Some('\n') }
    else if e == 'r' { Some('\r') }
    else if e == 't' { Some('\t') }
    else { None }
}

/// Parses the body of a string literal starting at `i` (after the
/// opening quote): the decoded characters and the index after the
/// closing quote.
pub open spec fn parse_string_body(s: Seq<char>, i: nat) -> Option<(Seq<char>, nat)>
    decreases s.len() - i,
{
    if i >= s.len() {
        None
    } else {
        let c = s[i as int];
        if c == '"' {
            Some((Seq::empty(), (i + 1) as nat))
        } else if c == '\\' {
            if i + 1 >= s.len() {
                None
            } else {
                let e = s[i as int + 1];
                if e == 'u' {
                    let cp = hex4(s, (i + 2) as nat);
                    if cp < 0 {
                        None
                    } else if 0xD800 <= cp < 0xDC00 {
                        // a high surrogate must pair with a low one
                        if i + 12 <= s.len() && s[i as int + 6] == '\\' && s[i as int + 7] == 'u' {
                            let lo = hex4(s, (i + 8) as nat);
                            if 0xDC00 <= lo < 0xE000 {
                                let scalar = 0x10000 + (cp - 0xD800) * 0x400 + (lo - 0xDC00);
                                match parse_string_body(s, (i + 12) as nat) {
                                    None => None,
                                    Some((rest, j)) => Some((seq![(scalar as u32) as char] + rest, j)),
                                }
                            } else {
                                None
                            }
                        } else {
                            None
                        }
                    } else if 0xDC00 <= cp < 0xE000 {
                        None
                    } else {
                        match parse_string_body(s, (i + 6) as nat) {
                            None => None,
                            Some((rest, j)) => Some((seq![(cp as u32) as char] + rest, j)),
                        }
                    }
                } else {
                    match short_escape(e) {
                        None => None,
                        Some(d) => match parse_string_body(s, (i + 2) as nat) {
                            None => None,
                            Some((rest, j)) => Some((seq![d] + rest, j)),
                        },
                    }
                }
            }
        } else if (c as u32) < 0x20 {
            None
        } else {
            match parse_string_body(s, (i + 1) as nat) {
                None => None,
                Some((rest, j)) => Some((seq![c] + rest, j)),
            }
        }
    }
}

/// The index after the fraction part, if it is well formed.
pub open spec fn frac_end(s: Seq<char>, k: nat) -> Option<nat> {
    if k < s.len() && s[k as int] == '.' {
        let m = skip_digits(s, (k + 1) as nat);
        if m > k + 1 { Some(m) } else { None }
    } else {
        Some(k)
    }
}

/// The index after the exponent part, if it is well formed.
pub open spec fn exp_end(s: Seq<char>, k: nat) -> Option<nat> {
    if k < s.len() && (s[k as int] == 'e' || s[k as int] == 'E') {
        let j: nat = if k + 1 < s.len() && (s[k as int + 1] == '+' || s[k as int + 1] == '-') {
            (k + 2) as nat
        } else {
            (k + 1) as nat
        };
        let m = skip_digits(s, j);
        if m > j { Some(m) } else { None }
    } else {
        Some(k)
    }
}

/// The index after a complete JSON number starting at `i`.
pub open spec fn num_end(s: Seq<char>, i: nat) -> Option<nat> {
    if i < s.len() {
        let j: nat = if s[i as int] == '-' { (i + 1) as nat } else { i };
        if j < s.len() && is_digit(s[j as int]) {
            let k: nat = if s[j as int] == '0' { (j + 1) as nat } else { skip_digits(s, j) };
            match frac_end(s, k) {
                None => None,
                Some(k2) => exp_end(s, k2),
            }
        } else {
            None
        }
    } else {
        None
    }
}

/// Parses a JSON number starting at `i`: its numeral text and the
/// index after it.
pub open spec fn parse_number(s: Seq<char>, i: nat) -> Option<(Seq<char>, nat)> {
    match num_end(s, i) {
        None => None,
        Some(k) => Some((s.subrange(i as int, k as int), k)),
    }
}

/// Parses one JSON value starting exactly at `i` (no leading
/// whitespace): the value and the index after it.
pub open spec fn parse_value(s: Seq<char>, i: nat) -> Option<(JsonV, nat)>
    decreases s.len() - i, 0int,
{
    if i >= s.len() {
        None
    } else {
        let c = s[i as int];
        if c == 'n' {
            if i + 4 <= s.len() && s[i as int + 1] == 'u' && s[i as int + 2] == 'l'
                && s[i as int + 3] == 'l' {
                Some((JsonV::Null, (i + 4) as nat))
            } else {
                None
            }
        } else if c == 't' {
            if i + 4 <= s.len() && s[i as int + 1] == 'r' && s[i as int + 2] == 'u'
                && s[i as int + 3] == 'e' {
                Some((JsonV::Bool(true), (i + 4) as nat))
            } else {
                None
            }
        } else if c == 'f' {
            if i + 5 <= s.len() && s[i as int + 1] == 'a' && s[i as int + 2] == 'l'
                && s[i as int + 3] == 's' && s[i as int + 4] == 'e' {
                Some((JsonV::Bool(false), (i + 5) as nat))
            } else {
                None
            }
        } else if c == '"' {
            match parse_string_body(s, (i + 1) as nat) {
                None => None,
                Some((body, j)) => Some((JsonV::Str(body), j)),
            }
        } else if c == '-' || is_digit(c) {
            match parse_number(s, i) {
                None => None,
                Some((num, j)) => Some((JsonV::Num(num), j)),
            }
        } else if c == '[' {
            let j = skip_ws(s, (i + 1) as nat);
            if j < s.len() && s[j as int] == ']' {
                Some((JsonV::Arr(Seq::empty()), (j + 1) as nat))
            } else if j <= i || j > s.len() {
                None
            } else {
                match parse_elems(s, j) {
                    None => None,
                    Some((es, k)) => Some((JsonV::Arr(es), k)),
                }
            }
        } else if c == '{' {
            let j = skip_ws(s, (i + 1) as nat);
            if j < s.len() && s[j as int] == '}' {
                Some((JsonV::Obj(Seq::empty()), (j + 1) as nat))
            } else if j <= i || j > s.len() {
                None
            } else {
                match parse_members(s, j) {
                    None => None,
                    Some((ps, k)) => Some((JsonV::Obj(ps), k)),
                }
            }
        } else {
            None
        }
    }
}

/// Parses a comma-separated list of values up to the closing bracket.
pub open spec fn parse_elems(s: Seq<char>, i: nat) -> Option<(Seq<JsonV>, nat)>
    decreases s.len() - i, 1int,
{
    match parse_value(s, i) {
        None => None,
        Some((v, j)) => {
            let k = skip_ws(s, j);
            if k < s.len() && s[k as int] == ',' {
                let m = skip_ws(s, (k + 1) as nat);
                if m <= i || m > s.len() {
                    None
                } else {
                    match parse_elems(s, m) {
                        None => None,
                        Some((es, p)) => Some((seq![v] + es, p)),
                    }
                }
            } else if k < s.len() && s[k as int] == ']' {
                Some((seq![v], (k + 1) as nat))
            } else {
                None
            }
        },
    }
}

/// Parses a comma-separated list of members up to the closing brace.
pub open spec fn parse_members(s: Seq<char>, i: nat) -> Option<(Seq<(Seq<char>, JsonV)>, nat)>
    decreases s.len() - i, 1int,
{
    if i >= s.len() || s[i as int] != '"' {
        None
    } else {
        match parse_string_body(s, (i + 1) as nat) {
            None => None,
            Some((key, j)) => {
                let k = skip_ws(s, j);
                if k < s.len() && s[k as int] == ':' {
                    let m = skip_ws(s, (k + 1) as nat);
                    if m <= i || m > s.len() {
                        None
                    } else {
                        match parse_value(s, m) {
                            None => None,
                            Some((v, p)) => {
                                let q = skip_ws(s, p);
                                if q < s.len() && s[q as int] == ',' {
                                    let t = skip_ws(s, (q + 1) as nat);
                                    if t <= i || t > s.len() {
                                        None
                                    } else {
                                        match parse_members(s, t) {
                                            None => None,
                                            Some((ps, u)) => Some((seq![(key, v)] + ps, u)),
                                        }
                                    }
                                } else if q < s.len() && s[q as int] == '}' {
                                    Some((seq![(key, v)], (q + 1) as nat))
                                } else {
                                    None
                                }
                            },
                        }
                    }
                } else {
                    None
                }
            },
        }
    }
}

/// Parses a complete JSON text: one value with optional surrounding
/// whitespace and nothing else.
pub open spec fn parse_json_spec(s: Seq<char>) -> Option<JsonV> {
    let i = skip_ws(s, 0);
    match parse_value(s, i) {
        None => None,
        Some((v, j)) => if skip_ws(s, j) == s.len() { Some(v) } else { None },
    }
}

/// Character-for-character equality of two string slices.
pub fn str_eq(a: &str, b: &str) -> (r: bool)
    ensures
        r == (a@ == b@),
{
    let na = a.unicode_len();
    let nb = b.unicode_len();
    if na != nb {
        return false;
    }
    let mut i: usize = 0;
    while i < na
        invariant
            na == a@.len(),
            nb == b@.len(),
            na == nb,
            i <= na,
            forall|k: int| 0 <= k < i ==> a@[k] == b@[k],
        decreases na - i,
    {
        if a.get_char(i) != b.get_char(i) {
            return false;
        }
        i = i + 1;
    }
    proof {
        assert(a@ =~= b@);
    }
    true
}

// ---------- the parser ----------

/// The denotations of a vector of parsed nodes.
pub open spec fn vals_of(es: Seq<Json>) -> Seq<JsonV> {
    Seq::new(es.len(), |i: int| if 0 <= i < es.len() { es[i].v() } else { JsonV::Null })
}

/// The denotations of a vector of parsed members.
pub open spec fn pairs_of(ps: Seq<(String, Json)>) -> Seq<(Seq<char>, JsonV)> {
    Seq::new(
        ps.len(),
        |i: int|
            if 0 <= i < ps.len() {
                (ps[i].0@, ps[i].1.v())
            } else {
                (Seq::<char>::empty(), JsonV::Null)
            },
    )
}

pub proof fn lemma_arr_v(es: Vec<Json>)
    ensures
        Json::Arr(es).v() == JsonV::Arr(vals_of(es@)),
{
    let inner = Json::Arr(es).v()->Arr_0;
    assert(inner =~= vals_of(es@));
}

pub proof fn lemma_obj_v(ps: Vec<(String, Json)>)
    ensures
        Json::Obj(ps).v() == JsonV::Obj(pairs_of(ps@)),
{
    let inner = Json::Obj(ps).v()->Obj_0;
    assert(inner =~= pairs_of(ps@));
}

proof fn lemma_skip_ws_bounds(s: Seq<char>, i: nat)
    requires
        i <= s.len(),
    ensures
        i <= skip_ws(s, i) <= s.len(),
    decreases s.len() - i,
{
    if i < s.len() && is_ws(s[i as int]) {
        lemma_skip_ws_bounds(s, (i + 1) as nat);
    }
}

proof fn lemma_skip_digits_bounds(s: Seq<char>, i: nat)
    requires
        i <= s.len(),
    ensures
        i <= skip_digits(s, i) <= s.len(),
    decreases s.len() - i,
{
    if i < s.len() && is_digit(s[i as int]) {
        lemma_skip_digits_bounds(s, (i + 1) as nat);
    }
}

pub(crate) fn is_ws_exec(c: char) -> (r: bool)
    ensures
        r == is_ws(c),
{
    c == ' ' || c == '\t' || c == '\n' || c == '\r'
}

fn is_digit_exec(c: char) -> (r: bool)
    ensures
        r == is_digit(c),
{
    let u = c as u32;
    48 <= u && u <= 57
}

pub(crate) fn skip_ws_exec(s: &str, i: usize, n: usize) -> (r: usize)
    requires
        n == s@.len(),
        i <= n,
    ensures
        r as nat == skip_ws(s@, i as nat),
        i <= r <= n,
    decreases n - i,
{
    if i < n && is_ws_exec(s.get_char(i)) {
        skip_ws_exec(s, i + 1, n)
    } else {
        i
    }
}

fn skip_digits_exec(s: &str, i: usize, n: usize) -> (r: usize)
    requires
        n == s@.len(),
        i <= n,
    ensures
        r as nat == skip_digits(s@, i as nat),
        i <= r <= n,
    decreases n - i,
{
    if i < n && is_digit_exec(s.get_char(i)) {
        skip_digits_exec(s, i + 1, n)
    } else {
        i
    }
}

fn hex_val_exec(c: char) -> (r: Option<u32>)
    ensures
        r matches Some(v) ==> hex_val(c) == v as int && v < 16,
        r is None ==> hex_val(c) == -1,
{
    let u = c as u32;
    if 48 <= u && u <= 57 {
        Some(u - 48)
    } else if 97 <= u && u <= 102 {
        Some(u - 87)
    } else if 65 <= u && u <= 70 {
        Some(u - 55)
    } else {
        None
    }
}

fn hex4_exec(s: &str, i: usize, n: usize) -> (r: Option<u32>)
    requires
        n == s@.len(),
        i <= n,
    ensures
        r matches Some(v) ==> hex4(s@, i as nat) == v as int && v < 0x10000,
        r is None ==> hex4(s@, i as nat) == -1,
{
    if n - i < 4 {
        return None;
    }
    let a = hex_val_exec(s.get_char(i));
    let b = hex_val_exec(s.get_char(i + 1));
    let c = hex_val_exec(s.get_char(i + 2));
    let d = hex_val_exec(s.get_char(i + 3));
    match (a, b, c, d) {
        (Some(a), Some(b), Some(c), Some(d)) => Some(a * 4096 + b * 256 + c * 16 + d),
        _ => None,
    }
}

fn short_escape_exec(e: char) -> (r: Option<char>)
    ensures
        r == short_escape(e),
{
    if e == '"' { Some('"') }
    else if e == '\\' { Some('\\') }
    else if e == '/' { Some('/') }
    else if e == 'b' { Some('\u{8}') }
    else if e == 'f' { Some('\u{c}') }
    else if e == 'n' { Some('\n') }
    else if e == 'r' { Some('\r') }
    else if e == 't' { Some('\t') }
    else { None }
}

/// Relies on std's `char::from_u32`: `Some` exactly for Unicode scalar
/// values, returning the character with that value.
#[verifier::external_body]
fn char_from_u32(v: u32) -> (r: Option<char>)
    ensures
        (r is Some) == (v < 0xD800 || (0xE000 <= v && v <= 0x10FFFF)),
        r matches Some(c) ==> c as u32 == v,
{
    char::from_u32(v)
}

/// A one-character string followed by `rest`.
fn prepend_char(c: char, rest: String) -> (out: String)
    ensures
        out@ == seq![c] + rest@,
{
    let mut out = String::new();
    push_char(&mut out, c);
    out.append(rest.as_str());
    proof {
        assert(out@ =~= seq![c] + rest@);
    }
    out
}

fn parse_string_body_exec(s: &str, i: usize, n: usize) -> (r: Option<(String, usize)>)
    requires
        n == s@.len(),
        i <= n,
    ensures
        r is None ==> parse_string_body(s@, i as nat) is None,
        r matches Some(p) ==> parse_string_body(s@, i as nat) == Some((p.0@, p.1 as nat)) && i < p.1
            <= n,
    decreases n - i,
{
    if i >= n {
        return None;
    }
    let c = s.get_char(i);
    if c == '"' {
        let out = String::new();
        proof {
            assert(out@ =~= Seq::<char>::empty());
        }
        Some((out, i + 1))
    } else if c == '\\' {
        if n - i < 2 {
            return None;
        }
        let e = s.get_char(i + 1);
        if e == 'u' {
            match hex4_exec(s, i + 2, n) {
                None => None,
                Some(cp) => {
                    if 0xD800 <= cp && cp < 0xDC00 {
                        if n - i >= 12 && s.get_char(i + 6) == '\\' && s.get_char(i + 7) == 'u' {
                            match hex4_exec(s, i + 8, n) {
                                None => None,
                                Some(lo) => {
                                    if 0xDC00 <= lo && lo < 0xE000 {
                                        let scalar: u32 = 0x10000 + (cp - 0xD800) * 0x400 + (lo
                                            - 0xDC00);
                                        match parse_string_body_exec(s, i + 12, n) {
                                            None => None,
                                            Some((rest, j)) => {
                                                match char_from_u32(scalar) {
                                                    Some(ch) => {
                                                        proof {
                                                            vstd::utf8::char_u32_cast(ch, scalar);
                                                        }
                                                        Some((prepend_char(ch, rest), j))
                                                    },
                                                    None => {
                                                        proof {
                                                            assert(false);
                                                        }
                                                        None
                                                    },
                                                }
                                            },
                                        }
                                    } else {
                                        None
                                    }
                                },
                            }
                        } else {
                            None
                        }
                    } else if 0xDC00 <= cp && cp < 0xE000 {
                        None
                    } else {
                        match parse_string_body_exec(s, i + 6, n) {
                            None => None,
                            Some((rest, j)) => {
                                match char_from_u32(cp) {
                                    Some(ch) => {
                                        proof {
                                            vstd::utf8::char_u32_cast(ch, cp);
                                        }
                                        Some((prepend_char(ch, rest), j))
                                    },
                                    None => {
                                        proof {
                                            assert(false);
                                        }
                                        None
                                    },
                                }
                            },
                        }
                    }
                },
            }
        } else {
            match short_escape_exec(e) {
                None => None,
                Some(d) => match parse_string_body_exec(s, i + 2, n) {
                    None => None,
                    Some((rest, j)) => Some((prepend_char(d, rest), j)),
                },
            }
        }
    } else if (c as u32) < 0x20 {
        None
    } else {
        match parse_string_body_exec(s, i + 1, n) {
            None => None,
            Some((rest, j)) => Some((prepend_char(c, rest), j)),
        }
    }
}

fn parse_number_exec(s: &str, i: usize, n: usize) -> (r: Option<(String, usize)>)
    requires
        n == s@.len(),
        i <= n,
    ensures
        r is None ==> parse_number(s@, i as nat) is None,
        r matches Some(p) ==> parse_number(s@, i as nat) == Some((p.0@, p.1 as nat)) && i < p.1
            <= n,
{
    if i >= n {
        return None;
    }
    let j = if s.get_char(i) == '-' { i + 1 } else { i };
    if j >= n || !is_digit_exec(s.get_char(j)) {
        return None;
    }
    let k = if s.get_char(j) == '0' {
        j + 1
    } else {
        proof {
            lemma_skip_digits_bounds(s@, (j + 1) as nat);
        }
        skip_digits_exec(s, j, n)
    };
    assert(k >= j + 1);
    let k2: usize;
    if k < n && s.get_char(k) == '.' {
        let m = skip_digits_exec(s, k + 1, n);
        if m > k + 1 {
            k2 = m;
        } else {
            return None;
        }
    } else {
        k2 = k;
    }
    assert(frac_end(s@, k as nat) == Some(k2 as nat));
    let k3: usize;
    if k2 < n && (s.get_char(k2) == 'e' || s.get_char(k2) == 'E') {
        let j2 = if k2 + 1 < n && (s.get_char(k2 + 1) == '+' || s.get_char(k2 + 1) == '-') {
            k2 + 2
        } else {
            k2 + 1
        };
        let m = skip_digits_exec(s, j2, n);
        if m > j2 {
            k3 = m;
        } else {
            return None;
        }
    } else {
        k3 = k2;
    }
    assert(num_end(s@, i as nat) == Some(k3 as nat));
    let t = s.substring_char(i, k3).to_owned();
    Some((t, k3))
}

fn parse_value_exec(s: &str, i: usize, n: usize) -> (r: Option<(Json, usize)>)
    requires
        n == s@.len(),
        i <= n,
    ensures
        r is None ==> parse_value(s@, i as nat) is None,
        r matches Some(p) ==> parse_value(s@, i as nat) == Some((p.0.v(), p.1 as nat)) && i < p.1
            <= n,
    decreases n - i, 0int,
{
    if i >= n {
        return None;
    }
    let c = s.get_char(i);
    if c == 'n' {
        if n - i >= 4 && s.get_char(i + 1) == 'u' && s.get_char(i + 2) == 'l' && s.get_char(i + 3)
            == 'l' {
            Some((Json::Null, i + 4))
        } else {
            None
        }
    } else if c == 't' {
        if n - i >= 4 && s.get_char(i + 1) == 'r' && s.get_char(i + 2) == 'u' && s.get_char(i + 3)
            == 'e' {
            Some((Json::Bool(true), i + 4))
        } else {
            None
        }
    } else if c == 'f' {
        if n - i >= 5 && s.get_char(i + 1) == 'a' && s.get_char(i + 2) == 'l' && s.get_char(i + 3)
            == 's' && s.get_char(i + 4) == 'e' {
            Some((Json::Bool(false), i + 5))
        } else {
            None
        }
    } else if c == '"' {
        match parse_string_body_exec(s, i + 1, n) {
            None => None,
            Some((body, j)) => Some((Json::Str(body), j)),
        }
    } else if c == '-' || is_digit_exec(c) {
        match parse_number_exec(s, i, n) {
            None => None,
            Some((num, j)) => Some((Json::Num(num), j)),
        }
    } else if c == '[' {
        let j = skip_ws_exec(s, i + 1, n);
        if j < n && s.get_char(j) == ']' {
            let es: Vec<Json> = Vec::new();
            proof {
                lemma_arr_v(es);
                assert(vals_of(es@) =~= Seq::<JsonV>::empty());
            }
            Some((Json::Arr(es), j + 1))
        } else {
            match parse_elems_exec(s, j, n) {
                None => None,
                Some((es, k)) => {
                    proof {
                        lemma_arr_v(es);
                    }
                    Some((Json::Arr(es), k))
                },
            }
        }
    } else if c == '{' {
        let j = skip_ws_exec(s, i + 1, n);
        if j < n && s.get_char(j) == '}' {
            let ps: Vec<(String, Json)> = Vec::new();
            proof {
                lemma_obj_v(ps);
                assert(pairs_of(ps@) =~= Seq::<(Seq<char>, JsonV)>::empty());
            }
            Some((Json::Obj(ps), j + 1))
        } else {
            match parse_members_exec(s, j, n) {
                None => None,
                Some((ps, k)) => {
                    proof {
                        lemma_obj_v(ps);
                    }
                    Some((Json::Obj(ps), k))
                },
            }
        }
    } else {
        None
    }
}

fn parse_elems_exec(s: &str, i: usize, n: usize) -> (r: Option<(Vec<Json>, usize)>)
    requires
        n == s@.len(),
        i <= n,
    ensures
        r is None ==> parse_elems(s@, i as nat) is None,
        r matches Some(p) ==> parse_elems(s@, i as nat) == Some((vals_of(p.0@), p.1 as nat)) && i
            < p.1 <= n,
    decreases n - i, 1int,
{
    match parse_value_exec(s, i, n) {
        None => None,
        Some((v, j)) => {
            let k = skip_ws_exec(s, j, n);
            if k < n && s.get_char(k) == ',' {
                let m = skip_ws_exec(s, k + 1, n);
                match parse_elems_exec(s, m, n) {
                    None => None,
                    Some((mut es, p)) => {
                        let ghost es0 = es@;
                        es.insert(0, v);
                        proof {
                            assert(vals_of(es@) =~= seq![v.v()] + vals_of(es0));
                        }
                        Some((es, p))
                    },
                }
            } else if k < n && s.get_char(k) == ']' {
                let mut es: Vec<Json> = Vec::new();
                es.push(v);
                proof {
                    assert(vals_of(es@) =~= seq![v.v()]);
                }
                Some((es, k + 1))
            } else {
                None
            }
        },
    }
}

fn parse_members_exec(s: &str, i: usize, n: usize) -> (r: Option<(Vec<(String, Json)>, usize)>)
    requires
        n == s@.len(),
        i <= n,
    ensures
        r is None ==> parse_members(s@, i as nat) is None,
        r matches Some(p) ==> parse_members(s@, i as nat) == Some((pairs_of(p.0@), p.1 as nat))
            && i < p.1 <= n,
    decreases n - i, 1int,
{
    if i >= n || s.get_char(i) != '"' {
        return None;
    }
    match parse_string_body_exec(s, i + 1, n) {
        None => None,
        Some((key, j)) => {
            let k = skip_ws_exec(s, j, n);
            if k < n && s.get_char(k) == ':' {
                let m = skip_ws_exec(s, k + 1, n);
                match parse_value_exec(s, m, n) {
                    None => None,
                    Some((v, p)) => {
                        let q = skip_ws_exec(s, p, n);
                        if q < n && s.get_char(q) == ',' {
                            let t = skip_ws_exec(s, q + 1, n);
                            match parse_members_exec(s, t, n) {
                                None => None,
                                Some((mut ps, u)) => {
                                    let ghost ps0 = ps@;
                                    ps.insert(0, (key, v));
                                    proof {
                                        assert(pairs_of(ps@) =~= seq![(key@, v.v())]
                                            + pairs_of(ps0));
                                    }
                                    Some((ps, u))
                                },
                            }
                        } else if q < n && s.get_char(q) == '}' {
                            let mut ps: Vec<(String, Json)> = Vec::new();
                            ps.push((key, v));
                            proof {
                                assert(pairs_of(ps@) =~= seq![(key@, v.v())]);
                            }
                            Some((ps, q + 1))
                        } else {
                            None
                        }
                    },
                }
            } else {
                None
            }
        },
    }
}

// ---------- reading parsed values ----------

/// The value under the first member named `k`.
pub open spec fn lookup(ps: Seq<(Seq<char>, JsonV)>, k: Seq<char>) -> Option<JsonV>
    decreases ps.len(),
{
    if ps.len() == 0 {
        None
    } else if ps[0].0 == k {
        Some(ps[0].1)
    } else {
        lookup(ps.drop_first(), k)
    }
}

/// The member `k` of an object value, if the value is an object and
/// has such a member.
pub open spec fn member(v: JsonV, k: Seq<char>) -> Option<JsonV> {
    match v {
        JsonV::Obj(ps) => lookup(ps, k),
        _ => None,
    }
}

/// The member `k`, when it is a string.
pub open spec fn str_member(v: JsonV, k: Seq<char>) -> Option<Seq<char>> {
    match member(v, k) {
        Some(JsonV::Str(s)) => Some(s),
        _ => None,
    }
}

/// The member `k` as a string, with a missing member reading as the
/// empty string; `None` when the member exists but is not a string.
pub open spec fn str_member_or_empty(v: JsonV, k: Seq<char>) -> Option<Seq<char>> {
    match member(v, k) {
        None => Some(Seq::empty()),
        Some(JsonV::Str(s)) => Some(s),
        Some(_) => None,
    }
}

/// The member `k` as an optional string: a missing member or a null
/// reads as unset; the outer `None` means the member exists but holds
/// something that is neither a string nor null.
pub open spec fn opt_str_member(v: JsonV, k: Seq<char>) -> Option<Option<Seq<char>>> {
    match member(v, k) {
        None => Some(None),
        Some(JsonV::Str(s)) => Some(Some(s)),
        Some(JsonV::Null) => Some(None),
        Some(_) => None,
    }
}

impl Json {
    /// Looks a member up by key; `None` when this is not an object or
    /// has no such member.
    pub fn get<'a>(&'a self, key: &str) -> (r: Option<&'a Json>)
        ensures
            r is None ==> member(self.v(), key@) is None,
            r matches Some(x) ==> member(self.v(), key@) == Some(x.v()),
    {
        match self {
            Json::Obj(ps) => {
                proof {
                    assert((*self).v()->Obj_0 =~= pairs_of(ps@));
                }
                proof {
                    assert(pairs_of(ps@).skip(0) =~= pairs_of(ps@));
                }
                let mut idx: usize = 0;
                while idx < ps.len()
                    invariant
                        idx <= ps@.len(),
                        lookup(pairs_of(ps@), key@) == lookup(
                            pairs_of(ps@).skip(idx as int),
                            key@,
                        ),
                        member((*self).v(), key@) == lookup(pairs_of(ps@), key@),
                        forall|j: int|
                            0 <= j < ps@.len() ==> #[trigger] pairs_of(ps@)[j] == (
                            ps@[j].0@,
                            ps@[j].1.v(),
                            ),
                    decreases ps@.len() - idx,
                {
                    if str_eq(ps[idx].0.as_str(), key) {
                        return Some(&ps[idx].1);
                    }
                    proof {
                        assert(pairs_of(ps@).skip(idx as int).drop_first() =~= pairs_of(
                            ps@,
                        ).skip(idx as int + 1));
                    }
                    idx = idx + 1;
                }
                proof {
                    assert(pairs_of(ps@).skip(idx as int).len() == 0);
                }
                None
            },
            _ => None,
        }
    }

    /// The member `key` when it is a string.
    pub fn get_str<'a>(&'a self, key: &str) -> (r: Option<&'a String>)
        ensures
            r is None ==> str_member(self.v(), key@) is None,
            r matches Some(x) ==> str_member(self.v(), key@) == Some(x@),
    {
        match self.get(key) {
            None => None,
            Some(j) => match j {
                Json::Str(s) => Some(s),
                _ => None,
            },
        }
    }

    /// The member `key` as an owned string, reading a missing member
    /// as empty; `None` when it exists and is not a string.
    pub fn get_str_or_empty(&self, key: &str) -> (r: Option<String>)
        ensures
            r is None ==> str_member_or_empty(self.v(), key@) is None,
            r matches Some(x) ==> str_member_or_empty(self.v(), key@) == Some(x@),
    {
        match self.get(key) {
            None => {
                let out = String::new();
                proof {
                    assert(out@ =~= Seq::<char>::empty());
                }
                Some(out)
            },
            Some(j) => match j {
                Json::Str(s) => Some(s.clone()),
                _ => None,
            },
        }
    }
}

// ---------- integer numerals ----------

/// Ten to the power `n`.
pub open spec fn pow10(n: nat) -> int
    decreases n,
{
    if n == 0 { 1 } else { 10 * pow10((n - 1) as nat) }
}

/// Every character is a decimal digit.
pub open spec fn all_digits(s: Seq<char>) -> bool {
    forall|k: int| 0 <= k < s.len() ==> is_digit(#[trigger] s[k])
}

/// The value of a sequence of decimal digits.
pub open spec fn digits_val(s: Seq<char>) -> int
    decreases s.len(),
{
    if s.len() == 0 { 0 } else { digits_val(s.drop_last()) * 10 + (s.last() as u32 - 48) }
}

/// The integer a JSON numeral denotes, when it is a plain integer of
/// at most 18 digits (fractions, exponents and longer numerals read
/// as `None`).
pub open spec fn int_of_numeral(s: Seq<char>) -> Option<int> {
    if s.len() > 0 && s[0] == '-' {
        let d = s.subrange(1, s.len() as int);
        if 1 <= d.len() <= 18 && all_digits(d) { Some(-digits_val(d)) } else { None }
    } else {
        if 1 <= s.len() <= 18 && all_digits(s) { Some(digits_val(s)) } else { None }
    }
}

proof fn lemma_pow10_values()
    ensures
        pow10(17) == 0x16345785D8A0000,
        pow10(18) == 0xDE0B6B3A7640000,
{
    assert(pow10(0) == 1);
    assert(pow10(1) == 10);
    assert(pow10(2) == 100);
    assert(pow10(3) == 1000);
    assert(pow10(4) == 10000);
    assert(pow10(5) == 100000);
    assert(pow10(6) == 1000000);
    assert(pow10(7) == 10000000);
    assert(pow10(8) == 100000000);
    assert(pow10(9) == 1000000000);
    assert(pow10(10) == 10000000000);
    assert(pow10(11) == 100000000000);
    assert(pow10(12) == 1000000000000);
    assert(pow10(13) == 10000000000000);
    assert(pow10(14) == 100000000000000);
    assert(pow10(15) == 1000000000000000);
    assert(pow10(16) == 10000000000000000);
    assert(pow10(17) == 100000000000000000);
    assert(pow10(18) == 1000000000000000000);
}

proof fn lemma_pow10_pos(n: nat)
    ensures
        pow10(n) >= 1,
    decreases n,
{
    if n > 0 {
        lemma_pow10_pos((n - 1) as nat);
    }
}

proof fn lemma_pow10_mono(a: nat, b: nat)
    requires
        a <= b,
    ensures
        pow10(a) <= pow10(b),
    decreases b,
{
    if a < b {
        lemma_pow10_mono(a, (b - 1) as nat);
        lemma_pow10_pos((b - 1) as nat);
    }
}

proof fn lemma_digits_val_bound(s: Seq<char>)
    requires
        all_digits(s),
    ensures
        0 <= digits_val(s) < pow10(s.len()),
    decreases s.len(),
{
    if s.len() > 0 {
        assert(all_digits(s.drop_last())) by {
            assert(forall|k: int|
                0 <= k < s.len() - 1 ==> #[trigger] s.drop_last()[k] == s[k]);
        }
        lemma_digits_val_bound(s.drop_last());
    }
}

/// Reads a decimal numeral as an `i64`; `None` for anything but a
/// plain integer of at most 18 digits.
pub fn numeral_to_i64(s: &str) -> (r: Option<i64>)
    ensures
        r is None ==> int_of_numeral(s@) is None,
        r matches Some(v) ==> int_of_numeral(s@) == Some(v as int),
{
    let n = s.unicode_len();
    if n == 0 {
        return None;
    }
    let neg = s.get_char(0) == '-';
    let start: usize = if neg { 1 } else { 0 };
    if n - start < 1 || n - start > 18 {
        return None;
    }
    let ghost d = if neg { s@.subrange(1, n as int) } else { s@ };
    proof {
        if !neg {
            assert(s@.subrange(0, n as int) =~= s@);
        }
    }
    let mut acc: i64 = 0;
    let mut i = start;
    while i < n
        invariant
            n == s@.len(),
            start <= i <= n,
            start <= 1,
            1 <= n - start <= 18,
            neg == (s@.len() > 0 && s@[0] == '-'),
            start == (if neg { 1int } else { 0int }),
            d == s@.subrange(start as int, n as int),
            acc == digits_val(s@.subrange(start as int, i as int)),
            all_digits(s@.subrange(start as int, i as int)),
            0 <= acc,
            acc < pow10((i - start) as nat),
        decreases n - i,
    {
        let c = s.get_char(i);
        if !is_digit_exec(c) {
            proof {
                if !neg {
                    assert(s@.subrange(0, n as int) =~= s@);
                }
                assert(d[i - start] == s@[i as int]);
                assert(!all_digits(d));
            }
            return None;
        }
        let dv = (c as u32) - 48;
        proof {
            lemma_pow10_values();
            lemma_pow10_mono((i - start) as nat, 17);
            assert(s@.subrange(start as int, i as int + 1).drop_last() =~= s@.subrange(
                start as int,
                i as int,
            ));
            assert(pow10(((i + 1) - start) as nat) == 10 * pow10((i - start) as nat));
        }
        acc = acc * 10 + (dv as i64);
        proof {
            assert(forall|k: int|
                0 <= k < i + 1 - start ==> #[trigger] s@.subrange(start as int, i as int + 1)[k]
                    == s@[start + k]);
        }
        i = i + 1;
    }
    proof {
        assert(s@.subrange(start as int, n as int) =~= d);
    }
    if neg {
        Some(-acc)
    } else {
        proof {
            assert(int_of_numeral(s@) == Some(digits_val(s@)));
        }
        Some(acc)
    }
}

/// The member `k`, when it is an integer numeral.
pub open spec fn int_member(v: JsonV, k: Seq<char>) -> Option<int> {
    match member(v, k) {
        Some(JsonV::Num(s)) => int_of_numeral(s),
        _ => None,
    }
}

impl Json {
    /// Whether this value is an object.
    pub fn is_obj(&self) -> (r: bool)
        ensures
            r == (self.v() is Obj),
    {
        match self {
            Json::Obj(_) => true,
            _ => false,
        }
    }

    /// The member `key` as an optional string, unset when missing or
    /// null; the outer `None` means it holds some other kind of value.
    pub fn get_opt_str(&self, key: &str) -> (r: Option<Option<String>>)
        ensures
            r is None ==> opt_str_member(self.v(), key@) is None,
            r matches Some(o) ==> opt_str_member(self.v(), key@) == Some(
                match o {
                    Some(s) => Some(s@),
                    None => None::<Seq<char>>,
                },
            ),
    {
        match self.get(key) {
            None => Some(None),
            Some(j) => match j {
                Json::Str(s) => Some(Some(s.clone())),
                Json::Null => Some(None),
                _ => None,
            },
        }
    }

    /// The member `key` as an integer.
    pub fn get_i64(&self, key: &str) -> (r: Option<i64>)
        ensures
            r is None ==> int_member(self.v(), key@) is None,
            r matches Some(v) ==> int_member(self.v(), key@) == Some(v as int),
    {
        match self.get(key) {
            None => None,
            Some(j) => match j {
                Json::Num(s) => numeral_to_i64(s.as_str()),
                _ => None,
            },
        }
    }
}

/// Parses a complete JSON text into a value; `None` on malformed input.
pub fn parse_json(s: &str) -> (r: Option<Json>)
    ensures
        r is None ==> parse_json_spec(s@) is None,
        r matches Some(v) ==> parse_json_spec(s@) == Some(v.v()),
{
    let n = s.unicode_len();
    let i = skip_ws_exec(s, 0, n);
    match parse_value_exec(s, i, n) {
        None => None,
        Some((v, j)) => {
            let e = skip_ws_exec(s, j, n);
            if e == n {
                Some(v)
            } else {
                None
            }
        },
    }
}

} // verus!
