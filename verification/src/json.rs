//! Parsing of the API's JSON payloads.
//!
//! Every payload this API serves is flat: a record whose field values are
//! scalars (null, booleans, integers, strings) or arrays of scalars, or a
//! bare scalar or array of scalars at top level. The grammar accepted here
//! is exactly that shape; numbers are integers of at most eighteen digits,
//! and strings use the eight simple escapes. The grammar is defined by the
//! `spec` functions in this module, and each executable parser is proved to
//! return exactly what the grammar assigns to its input.
//!
//! The recursive grammar functions for array elements and record members
//! take an explicit recursion budget. The budget is set to the text's
//! length at the top level; since every element or member consumes at least
//! one character, it never runs out on any input.

use vstd::prelude::*;

verus! {

/// A scalar JSON value.
#[derive(Debug, Clone, PartialEq)]
pub enum Scalar {
    /// The JSON `null` value.
    Null,
    /// A JSON boolean.
    Bool(bool),
    /// A JSON integer.
    Int(i64),
    /// A JSON string.
    Str(String),
}

/// The mathematical value of a `Scalar`.
pub enum ScalarV {
    Null,
    Bool(bool),
    Int(int),
    Str(Seq<char>),
}

/// A field value of a record: a scalar or an array of scalars.
#[derive(Debug, Clone, PartialEq)]
pub enum JsonVal {
    /// A scalar field value.
    Sca(Scalar),
    /// An array field value.
    Arr(Vec<Scalar>),
}

/// The mathematical value of a `JsonVal`.
pub enum JsonValV {
    Sca(ScalarV),
    Arr(Seq<ScalarV>),
}

/// The mathematical value of a record: its fields, in payload order.
pub type RecordV = Seq<(Seq<char>, JsonValV)>;

/// A parsed record: named fields, in payload order.
#[derive(Debug, Clone, PartialEq)]
pub struct JsonRecord {
    /// The record's fields, in payload order.
    pub fields: Vec<(String, JsonVal)>,
}

impl View for Scalar {
    type V = ScalarV;

    open spec fn view(&self) -> ScalarV {
        match self {
            Scalar::Null => ScalarV::Null,
            Scalar::Bool(b) => ScalarV::Bool(*b),
            Scalar::Int(v) => ScalarV::Int(*v as int),
            Scalar::Str(t) => ScalarV::Str(t@),
        }
    }
}

/// The mathematical value of a sequence of scalars.
pub open spec fn scalars_view(v: Seq<Scalar>) -> Seq<ScalarV> {
    Seq::new(v.len(), |i: int| v[i]@)
}

impl View for JsonVal {
    type V = JsonValV;

    open spec fn view(&self) -> JsonValV {
        match self {
            JsonVal::Sca(x) => JsonValV::Sca(x@),
            JsonVal::Arr(v) => JsonValV::Arr(scalars_view(v@)),
        }
    }
}

/// The mathematical value of a sequence of named fields.
pub open spec fn fields_view(v: Seq<(String, JsonVal)>) -> RecordV {
    Seq::new(v.len(), |i: int| (v[i].0@, v[i].1@))
}

impl View for JsonRecord {
    type V = RecordV;

    open spec fn view(&self) -> RecordV {
        fields_view(self.fields@)
    }
}

/// Whether a character is JSON whitespace.
pub open spec fn is_ws(c: char) -> bool {
    c == ' ' || c == '\n' || c == '\t' || c == '\r'
}

/// The first index at or after `i` holding a non-whitespace character.
pub open spec fn ws_end(s: Seq<char>, i: int) -> int
    decreases s.len() - i when 0 <= i <= s.len()
{
    if i < s.len() && is_ws(s[i]) {
        ws_end(s, i + 1)
    } else {
        i
    }
}

/// Whether a character is a decimal digit.
pub open spec fn is_digit(c: char) -> bool {
    48 <= c as u32 <= 57
}

/// The numeric value of a decimal digit.
pub open spec fn digit_val(c: char) -> int {
    c as u32 - 48
}

/// The first index at or after `i` holding a non-digit character.
pub open spec fn digits_end(s: Seq<char>, i: int) -> int
    decreases s.len() - i when 0 <= i <= s.len()
{
    if i < s.len() && is_digit(s[i]) {
        digits_end(s, i + 1)
    } else {
        i
    }
}

/// The value of the decimal digits `s[i..j]`.
pub open spec fn digits_value(s: Seq<char>, i: int, j: int) -> int
    decreases j - i when i <= j
{
    if i >= j {
        0
    } else {
        digits_value(s, i, j - 1) * 10 + digit_val(s[j - 1])
    }
}

/// Ten to the `k`.
pub open spec fn pow10(k: nat) -> int
    decreases k,
{
    if k == 0 {
        1
    } else {
        10 * pow10((k - 1) as nat)
    }
}

/// The character an escape introducer selects, if it is one of the eight
/// simple escapes.
pub open spec fn spec_escape(c: char) -> Option<char> {
    if c == '"' {
        Option::Some('"')
    } else if c == '\\' {
        Option::Some('\\')
    } else if c == '/' {
        Option::Some('/')
    } else if c == 'n' {
        Option::Some('\n')
    } else if c == 't' {
        Option::Some('\t')
    } else if c == 'r' {
        Option::Some('\r')
    } else if c == 'b' {
        Option::Some('\u{0008}')
    } else if c == 'f' {
        Option::Some('\u{000C}')
    } else {
        Option::None
    }
}

/// The decoded content of a string body starting at `st` (just after the
/// opening quote), and the index just after the closing quote.
pub open spec fn spec_string_body(s: Seq<char>, st: int) -> Option<(Seq<char>, int)>
    decreases s.len() - st when 0 <= st <= s.len()
{
    if st >= s.len() {
        Option::None
    } else if s[st] == '"' {
        Option::Some((Seq::empty(), st + 1))
    } else if s[st] == '\\' {
        if st + 1 < s.len() {
            match spec_escape(s[st + 1]) {
                Option::Some(c) => match spec_string_body(s, st + 2) {
                    Option::Some((t, j)) => Option::Some((seq![c] + t, j)),
                    Option::None => Option::None,
                },
                Option::None => Option::None,
            }
        } else {
            Option::None
        }
    } else {
        match spec_string_body(s, st + 1) {
            Option::Some((t, j)) => Option::Some((seq![s[st]] + t, j)),
            Option::None => Option::None,
        }
    }
}

/// The decoded content of a quoted string starting at `i`, and the index
/// just after its closing quote.
pub open spec fn spec_parse_string(s: Seq<char>, i: int) -> Option<(Seq<char>, int)> {
    if 0 <= i < s.len() && s[i] == '"' {
        spec_string_body(s, i + 1)
    } else {
        Option::None
    }
}

/// The value of an integer starting at `i` (an optional minus sign and one
/// to eighteen digits), and the index just after it.
pub open spec fn spec_parse_number(s: Seq<char>, i: int) -> Option<(int, int)> {
    let st = if 0 <= i < s.len() && s[i] == '-' {
        i + 1
    } else {
        i
    };
    let e = digits_end(s, st);
    if e - st < 1 || e - st > 18 {
        Option::None
    } else {
        let mag = digits_value(s, st, e);
        Option::Some(((if st > i { -mag } else { mag }), e))
    }
}

/// Whether the literal `null` stands at `i`.
pub open spec fn spec_null_at(s: Seq<char>, i: int) -> bool {
    &&& 0 <= i
    &&& i + 4 <= s.len()
    &&& s[i] == 'n'
    &&& s[i + 1] == 'u'
    &&& s[i + 2] == 'l'
    &&& s[i + 3] == 'l'
}

/// The scalar starting at `i`, and the index just after it.
pub open spec fn spec_parse_scalar(s: Seq<char>, i: int) -> Option<(ScalarV, int)> {
    if !(0 <= i < s.len()) {
        Option::None
    } else if s[i] == '"' {
        match spec_parse_string(s, i) {
            Option::Some((t, j)) => Option::Some((ScalarV::Str(t), j)),
            Option::None => Option::None,
        }
    } else if s[i] == 'n' {
        if spec_null_at(s, i) {
            Option::Some((ScalarV::Null, i + 4))
        } else {
            Option::None
        }
    } else if s[i] == 't' {
        if i + 4 <= s.len() && s[i + 1] == 'r' && s[i + 2] == 'u' && s[i + 3] == 'e' {
            Option::Some((ScalarV::Bool(true), i + 4))
        } else {
            Option::None
        }
    } else if s[i] == 'f' {
        if i + 5 <= s.len() && s[i + 1] == 'a' && s[i + 2] == 'l' && s[i + 3] == 's' && s[i + 4]
            == 'e' {
            Option::Some((ScalarV::Bool(false), i + 5))
        } else {
            Option::None
        }
    } else if s[i] == '-' || is_digit(s[i]) {
        match spec_parse_number(s, i) {
            Option::Some((v, j)) => Option::Some((ScalarV::Int(v), j)),
            Option::None => Option::None,
        }
    } else {
        Option::None
    }
}

/// The array elements starting at `i` (just after the opening bracket or a
/// comma of a non-empty array), and the index just after the closing
/// bracket. `fuel` bounds the number of elements.
pub open spec fn spec_elems(s: Seq<char>, i: int, fuel: nat) -> Option<(Seq<ScalarV>, int)>
    decreases fuel,
{
    if fuel == 0 {
        Option::None
    } else {
        match spec_parse_scalar(s, ws_end(s, i)) {
            Option::None => Option::None,
            Option::Some((v, e)) => {
                let q = ws_end(s, e);
                if q < s.len() && s[q] == ',' {
                    match spec_elems(s, q + 1, (fuel - 1) as nat) {
                        Option::Some((t, j)) => Option::Some((seq![v] + t, j)),
                        Option::None => Option::None,
                    }
                } else if q < s.len() && s[q] == ']' {
                    Option::Some((seq![v], q + 1))
                } else {
                    Option::None
                }
            },
        }
    }
}

/// The array of scalars starting at `i`, and the index just after its
/// closing bracket.
pub open spec fn spec_parse_array(s: Seq<char>, i: int, fuel: nat) -> Option<(Seq<ScalarV>, int)> {
    if 0 <= i < s.len() && s[i] == '[' {
        let p = ws_end(s, i + 1);
        if p < s.len() && s[p] == ']' {
            Option::Some((Seq::empty(), p + 1))
        } else {
            spec_elems(s, i + 1, fuel)
        }
    } else {
        Option::None
    }
}

/// The field value starting at `i`: a scalar, or an array of scalars.
pub open spec fn spec_parse_value(s: Seq<char>, i: int, fuel: nat) -> Option<(JsonValV, int)> {
    if 0 <= i < s.len() && s[i] == '[' {
        match spec_parse_array(s, i, fuel) {
            Option::Some((a, j)) => Option::Some((JsonValV::Arr(a), j)),
            Option::None => Option::None,
        }
    } else {
        match spec_parse_scalar(s, i) {
            Option::Some((v, j)) => Option::Some((JsonValV::Sca(v), j)),
            Option::None => Option::None,
        }
    }
}

/// The record members starting at `i` (just after the opening brace or a
/// comma of a non-empty record), and the index just after the closing
/// brace. `fuel` bounds the number of members.
pub open spec fn spec_members(s: Seq<char>, i: int, fuel: nat) -> Option<(RecordV, int)>
    decreases fuel,
{
    if fuel == 0 {
        Option::None
    } else {
        match spec_parse_string(s, ws_end(s, i)) {
            Option::None => Option::None,
            Option::Some((key, e1)) => {
                let q = ws_end(s, e1);
                if q < s.len() && s[q] == ':' {
                    match spec_parse_value(s, ws_end(s, q + 1), fuel) {
                        Option::None => Option::None,
                        Option::Some((v, e2)) => {
                            let t = ws_end(s, e2);
                            if t < s.len() && s[t] == ',' {
                                match spec_members(s, t + 1, (fuel - 1) as nat) {
                                    Option::Some((m, j)) => Option::Some((seq![(key, v)] + m, j)),
                                    Option::None => Option::None,
                                }
                            } else if t < s.len() && s[t] == '}' {
                                Option::Some((seq![(key, v)], t + 1))
                            } else {
                                Option::None
                            }
                        },
                    }
                } else {
                    Option::None
                }
            },
        }
    }
}

/// The record starting at `i`, and the index just after its closing brace.
pub open spec fn spec_parse_record(s: Seq<char>, i: int, fuel: nat) -> Option<(RecordV, int)> {
    if 0 <= i < s.len() && s[i] == '{' {
        let p = ws_end(s, i + 1);
        if p < s.len() && s[p] == '}' {
            Option::Some((Seq::empty(), p + 1))
        } else {
            spec_members(s, i + 1, fuel)
        }
    } else {
        Option::None
    }
}

/// What a whole payload of one record denotes: its fields, if the text is
/// exactly one record surrounded by whitespace.
pub open spec fn spec_record_doc(s: Seq<char>) -> Option<RecordV> {
    match spec_parse_record(s, ws_end(s, 0), s.len()) {
        Option::Some((rec, e)) => {
            if ws_end(s, e) == s.len() {
                Option::Some(rec)
            } else {
                Option::None
            }
        },
        Option::None => Option::None,
    }
}

/// What a whole payload of one record or the literal `null` denotes:
/// `None` for `null` (the resource is absent), else the record's fields.
pub open spec fn spec_opt_record_doc(s: Seq<char>) -> Option<Option<RecordV>> {
    let p = ws_end(s, 0);
    if spec_null_at(s, p) {
        if ws_end(s, p + 4) == s.len() {
            Option::Some(Option::None)
        } else {
            Option::None
        }
    } else {
        match spec_record_doc(s) {
            Option::Some(rec) => Option::Some(Option::Some(rec)),
            Option::None => Option::None,
        }
    }
}

/// What a whole payload of one integer denotes.
pub open spec fn spec_int_doc(s: Seq<char>) -> Option<int> {
    match spec_parse_number(s, ws_end(s, 0)) {
        Option::Some((v, e)) => {
            if ws_end(s, e) == s.len() {
                Option::Some(v)
            } else {
                Option::None
            }
        },
        Option::None => Option::None,
    }
}

/// What a whole payload of one array of scalars denotes.
pub open spec fn spec_array_doc(s: Seq<char>) -> Option<Seq<ScalarV>> {
    match spec_parse_array(s, ws_end(s, 0), s.len()) {
        Option::Some((a, e)) => {
            if ws_end(s, e) == s.len() {
                Option::Some(a)
            } else {
                Option::None
            }
        },
        Option::None => Option::None,
    }
}

proof fn lemma_digits_end_bounds(s: Seq<char>, i: int)
    requires
        0 <= i <= s.len(),
    ensures
        i <= digits_end(s, i) <= s.len(),
        forall|k: int| i <= k < digits_end(s, i) ==> is_digit(s[k]),
    decreases s.len() - i,
{
    if i < s.len() && is_digit(s[i]) {
        lemma_digits_end_bounds(s, i + 1);
    }
}

proof fn lemma_pow10_pos(k: nat)
    ensures
        pow10(k) >= 1,
    decreases k,
{
    if k > 0 {
        lemma_pow10_pos((k - 1) as nat);
    }
}

proof fn lemma_pow10_mono(a: nat, b: nat)
    requires
        a <= b,
    ensures
        pow10(a) <= pow10(b),
    decreases b,
{
    if a < b {
        lemma_pow10_mono(a, (b - 1) as nat);
        lemma_pow10_pos((b - 1) as nat);
    }
}

proof fn lemma_digits_value_bound(s: Seq<char>, i: int, j: int)
    requires
        i <= j,
        forall|k: int| i <= k < j ==> is_digit(s[k]),
    ensures
        0 <= digits_value(s, i, j) < pow10((j - i) as nat),
    decreases j - i,
{
    if i < j {
        lemma_digits_value_bound(s, i, j - 1);
    }
}

/// Whether a character is JSON whitespace.
fn ws_char(c: char) -> (r: bool)
    ensures
        r == is_ws(c),
{
    c == ' ' || c == '\n' || c == '\t' || c == '\r'
}

/// Whether a character is a decimal digit.
fn digit_char(c: char) -> (r: bool)
    ensures
        r == is_digit(c),
{
    let u = c as u32;
    48 <= u && u <= 57
}

/// Skip whitespace from `i`, returning the first non-whitespace index.
fn skip_ws(s: &str, n: usize, i: usize) -> (r: usize)
    requires
        n == s@.len(),
        i <= n,
    ensures
        r == ws_end(s@, i as int),
        i <= r <= n,
{
    let mut j = i;
    while j < n && ws_char(s.get_char(j))
        invariant
            i <= j <= n,
            ws_end(s@, i as int) == ws_end(s@, j as int),
        decreases n - j,
    {
        j = j + 1;
    }
    j
}

/// The string content a simple escape introducer selects, if any.
fn unescape(e: char) -> (r: Option<&'static str>)
    ensures
        r is Some <==> spec_escape(e) is Some,
        r matches Option::Some(t) ==> spec_escape(e) matches Option::Some(c) && t@ == seq![c],
{
    proof {
        reveal_strlit("\"");
        reveal_strlit("\\");
        reveal_strlit("/");
        reveal_strlit("\n");
        reveal_strlit("\t");
        reveal_strlit("\r");
        reveal_strlit("\u{0008}");
        reveal_strlit("\u{000C}");
    }
    match e {
        '"' => Option::Some("\""),
        '\\' => Option::Some("\\"),
        '/' => Option::Some("/"),
        'n' => Option::Some("\n"),
        't' => Option::Some("\t"),
        'r' => Option::Some("\r"),
        'b' => Option::Some("\u{0008}"),
        'f' => Option::Some("\u{000C}"),
        _ => Option::None,
    }
}

/// Decode a string body from `st` (just after the opening quote) up to and
/// past the closing quote.
fn parse_string_body(s: &str, n: usize, st: usize) -> (r: Option<(String, usize)>)
    requires
        n == s@.len(),
        st <= n,
    ensures
        match r {
            Option::Some((out, j)) => spec_string_body(s@, st as int) == Option::Some(
                (out@, j as int),
            ) && st < j <= n,
            Option::None => spec_string_body(s@, st as int) is None,
        },
{
    let mut i = st;
    let mut out = String::new();
    proof {
        if spec_string_body(s@, st as int) is Some {
            let t0 = spec_string_body(s@, st as int).unwrap().0;
            assert(out@ + t0 =~= t0);
        }
    }
    while i < n
        invariant
            st <= i <= n,
            match spec_string_body(s@, i as int) {
                Option::Some((t, j)) => spec_string_body(s@, st as int) == Option::Some(
                    (out@ + t, j),
                ),
                Option::None => spec_string_body(s@, st as int) is None,
            },
        decreases n - i,
    {
        let c = s.get_char(i);
        if c == '"' {
            proof {
                assert(out@ + Seq::<char>::empty() =~= out@);
            }
            return Option::Some((out, i + 1));
        } else if c == '\\' {
            if i + 1 >= n {
                return Option::None;
            }
            let e = s.get_char(i + 1);
            match unescape(e) {
                Option::Some(lit) => {
                    let ghost dc = spec_escape(s@[i as int + 1]).unwrap();
                    let ghost oldout = out@;
                    out.append(lit);
                    proof {
                        if spec_string_body(s@, i as int + 2) is Some {
                            let t2 = spec_string_body(s@, i as int + 2).unwrap().0;
                            assert((oldout + seq![dc]) + t2 =~= oldout + (seq![dc] + t2));
                        }
                    }
                    i = i + 2;
                },
                Option::None => {
                    return Option::None;
                },
            }
        } else {
            let ghost oldout = out@;
            out.append(s.substring_char(i, i + 1));
            proof {
                assert(s@.subrange(i as int, i as int + 1) =~= seq![s@[i as int]]);
                if spec_string_body(s@, i as int + 1) is Some {
                    let t2 = spec_string_body(s@, i as int + 1).unwrap().0;
                    assert((oldout + seq![s@[i as int]]) + t2 =~= oldout + (seq![s@[i as int]]
                        + t2));
                }
            }
            i = i + 1;
        }
    }
    Option::None
}

/// Parse a quoted string starting at `i`.
fn parse_string(s: &str, n: usize, i: usize) -> (r: Option<(String, usize)>)
    requires
        n == s@.len(),
        i <= n,
    ensures
        match r {
            Option::Some((out, j)) => spec_parse_string(s@, i as int) == Option::Some(
                (out@, j as int),
            ) && i < j <= n,
            Option::None => spec_parse_string(s@, i as int) is None,
        },
{
    if i < n && s.get_char(i) == '"' {
        parse_string_body(s, n, i + 1)
    } else {
        Option::None
    }
}

/// The first non-digit index at or after `i`.
fn find_digits_end(s: &str, n: usize, i: usize) -> (r: usize)
    requires
        n == s@.len(),
        i <= n,
    ensures
        r == digits_end(s@, i as int),
        i <= r <= n,
{
    let mut j = i;
    while j < n && digit_char(s.get_char(j))
        invariant
            i <= j <= n,
            digits_end(s@, i as int) == digits_end(s@, j as int),
        decreases n - j,
    {
        j = j + 1;
    }
    j
}

/// Parse an integer starting at `i`: an optional minus sign and one to
/// eighteen digits.
fn parse_number(s: &str, n: usize, i: usize) -> (r: Option<(i64, usize)>)
    requires
        n == s@.len(),
        i <= n,
    ensures
        match r {
            Option::Some((v, j)) => spec_parse_number(s@, i as int) == Option::Some(
                (v as int, j as int),
            ) && i < j <= n,
            Option::None => spec_parse_number(s@, i as int) is None,
        },
{
    let neg = i < n && s.get_char(i) == '-';
    let st = if neg {
        i + 1
    } else {
        i
    };
    let e = find_digits_end(s, n, st);
    let cnt = e - st;
    if cnt < 1 || cnt > 18 {
        return Option::None;
    }
    proof {
        lemma_digits_end_bounds(s@, st as int);
    }
    let mut acc: i64 = 0;
    let mut j = st;
    while j < e
        invariant
            st <= j <= e <= n,
            n == s@.len(),
            e == digits_end(s@, st as int),
            e - st <= 18,
            forall|k: int| st <= k < e ==> is_digit(s@[k]),
            acc == digits_value(s@, st as int, j as int),
            0 <= acc < pow10((j - st) as nat),
        decreases e - j,
    {
        let c = s.get_char(j);
        let d = c as u32 - 48;
        proof {
            lemma_pow10_mono((j - st) as nat, 17);
            assert(pow10(17) == 100_000_000_000_000_000) by {
                reveal_with_fuel(pow10, 18);
            }
        }
        acc = acc * 10 + (d as i64);
        j = j + 1;
    }
    let v = if neg {
        -acc
    } else {
        acc
    };
    Option::Some((v, e))
}

/// Parse the scalar starting at `i`.
fn parse_scalar(s: &str, n: usize, i: usize) -> (r: Option<(Scalar, usize)>)
    requires
        n == s@.len(),
        i <= n,
    ensures
        match r {
            Option::Some((v, j)) => spec_parse_scalar(s@, i as int) == Option::Some(
                (v@, j as int),
            ) && i < j <= n,
            Option::None => spec_parse_scalar(s@, i as int) is None,
        },
{
    if i >= n {
        return Option::None;
    }
    let c = s.get_char(i);
    if c == '"' {
        match parse_string(s, n, i) {
            Option::Some((t, j)) => Option::Some((Scalar::Str(t), j)),
            Option::None => Option::None,
        }
    } else if c == 'n' {
        if n - i >= 4 && s.get_char(i + 1) == 'u' && s.get_char(i + 2) == 'l' && s.get_char(i + 3)
            == 'l' {
            Option::Some((Scalar::Null, i + 4))
        } else {
            Option::None
        }
    } else if c == 't' {
        if n - i >= 4 && s.get_char(i + 1) == 'r' && s.get_char(i + 2) == 'u' && s.get_char(i + 3)
            == 'e' {
            Option::Some((Scalar::Bool(true), i + 4))
        } else {
            Option::None
        }
    } else if c == 'f' {
        if n - i >= 5 && s.get_char(i + 1) == 'a' && s.get_char(i + 2) == 'l' && s.get_char(i + 3)
            == 's' && s.get_char(i + 4) == 'e' {
            Option::Some((Scalar::Bool(false), i + 5))
        } else {
            Option::None
        }
    } else if c == '-' || digit_char(c) {
        match parse_number(s, n, i) {
            Option::Some((v, j)) => Option::Some((Scalar::Int(v), j)),
            Option::None => Option::None,
        }
    } else {
        Option::None
    }
}

/// Parse array elements from `i` (just after the opening bracket of a
/// non-empty array) up to and past the closing bracket.
fn parse_elems(s: &str, n: usize, i: usize, fuel: usize) -> (r: Option<(Vec<Scalar>, usize)>)
    requires
        n == s@.len(),
        i <= n,
    ensures
        match r {
            Option::Some((v, j)) => spec_elems(s@, i as int, fuel as nat) == Option::Some(
                (scalars_view(v@), j as int),
            ) && j <= n,
            Option::None => spec_elems(s@, i as int, fuel as nat) is None,
        },
{
    let mut cur = i;
    let mut curfuel = fuel;
    let mut acc: Vec<Scalar> = Vec::new();
    loop
        invariant
            cur <= n,
            n == s@.len(),
            match spec_elems(s@, cur as int, curfuel as nat) {
                Option::Some((t, j)) => spec_elems(s@, i as int, fuel as nat) == Option::Some(
                    (scalars_view(acc@) + t, j),
                ),
                Option::None => spec_elems(s@, i as int, fuel as nat) is None,
            },
        decreases curfuel,
    {
        if curfuel == 0 {
            return Option::None;
        }
        let p = skip_ws(s, n, cur);
        match parse_scalar(s, n, p) {
            Option::None => {
                return Option::None;
            },
            Option::Some((v, e)) => {
                let q = skip_ws(s, n, e);
                let ghost oldacc = acc@;
                if q < n && s.get_char(q) == ',' {
                    acc.push(v);
                    proof {
                        assert(scalars_view(acc@) =~= scalars_view(oldacc) + seq![v@]);
                        if spec_elems(s@, q as int + 1, (curfuel - 1) as nat) is Some {
                            let t2 = spec_elems(s@, q as int + 1, (curfuel - 1) as nat).unwrap().0;
                            assert((scalars_view(oldacc) + seq![v@]) + t2 =~= scalars_view(oldacc)
                                + (seq![v@] + t2));
                        }
                    }
                    cur = q + 1;
                    curfuel = curfuel - 1;
                } else if q < n && s.get_char(q) == ']' {
                    acc.push(v);
                    proof {
                        assert(scalars_view(acc@) =~= scalars_view(oldacc) + seq![v@]);
                    }
                    return Option::Some((acc, q + 1));
                } else {
                    return Option::None;
                }
            },
        }
    }
}

/// Parse the array of scalars starting at `i`.
fn parse_array(s: &str, n: usize, i: usize, fuel: usize) -> (r: Option<(Vec<Scalar>, usize)>)
    requires
        n == s@.len(),
        i <= n,
    ensures
        match r {
            Option::Some((v, j)) => spec_parse_array(s@, i as int, fuel as nat) == Option::Some(
                (scalars_view(v@), j as int),
            ) && j <= n,
            Option::None => spec_parse_array(s@, i as int, fuel as nat) is None,
        },
{
    if i < n && s.get_char(i) == '[' {
        let p = skip_ws(s, n, i + 1);
        if p < n && s.get_char(p) == ']' {
            let empty: Vec<Scalar> = Vec::new();
            proof {
                assert(scalars_view(empty@) =~= Seq::<ScalarV>::empty());
            }
            Option::Some((empty, p + 1))
        } else {
            parse_elems(s, n, i + 1, fuel)
        }
    } else {
        Option::None
    }
}

/// Parse the field value starting at `i`.
fn parse_value(s: &str, n: usize, i: usize, fuel: usize) -> (r: Option<(JsonVal, usize)>)
    requires
        n == s@.len(),
        i <= n,
    ensures
        match r {
            Option::Some((v, j)) => spec_parse_value(s@, i as int, fuel as nat) == Option::Some(
                (v@, j as int),
            ) && j <= n,
            Option::None => spec_parse_value(s@, i as int, fuel as nat) is None,
        },
{
    if i < n && s.get_char(i) == '[' {
        match parse_array(s, n, i, fuel) {
            Option::Some((a, j)) => Option::Some((JsonVal::Arr(a), j)),
            Option::None => Option::None,
        }
    } else {
        match parse_scalar(s, n, i) {
            Option::Some((v, j)) => Option::Some((JsonVal::Sca(v), j)),
            Option::None => Option::None,
        }
    }
}

/// Parse record members from `i` (just after the opening brace of a
/// non-empty record) up to and past the closing brace.
fn parse_members(s: &str, n: usize, i: usize, fuel: usize) -> (r: Option<
    (Vec<(String, JsonVal)>, usize),
>)
    requires
        n == s@.len(),
        i <= n,
    ensures
        match r {
            Option::Some((v, j)) => spec_members(s@, i as int, fuel as nat) == Option::Some(
                (fields_view(v@), j as int),
            ) && j <= n,
            Option::None => spec_members(s@, i as int, fuel as nat) is None,
        },
{
    let mut cur = i;
    let mut curfuel = fuel;
    let mut acc: Vec<(String, JsonVal)> = Vec::new();
    loop
        invariant
            cur <= n,
            n == s@.len(),
            match spec_members(s@, cur as int, curfuel as nat) {
                Option::Some((t, j)) => spec_members(s@, i as int, fuel as nat) == Option::Some(
                    (fields_view(acc@) + t, j),
                ),
                Option::None => spec_members(s@, i as int, fuel as nat) is None,
            },
        decreases curfuel,
    {
        if curfuel == 0 {
            return Option::None;
        }
        let p = skip_ws(s, n, cur);
        match parse_string(s, n, p) {
            Option::None => {
                return Option::None;
            },
            Option::Some((key, e1)) => {
                let q = skip_ws(s, n, e1);
                if !(q < n && s.get_char(q) == ':') {
                    return Option::None;
                }
                let r2 = skip_ws(s, n, q + 1);
                match parse_value(s, n, r2, curfuel) {
                    Option::None => {
                        return Option::None;
                    },
                    Option::Some((v, e2)) => {
                        let t = skip_ws(s, n, e2);
                        let ghost oldacc = acc@;
                        let ghost kv = (key@, v@);
                        if t < n && s.get_char(t) == ',' {
                            acc.push((key, v));
                            proof {
                                assert(fields_view(acc@) =~= fields_view(oldacc) + seq![kv]);
                                if spec_members(s@, t as int + 1, (curfuel - 1) as nat) is Some {
                                    let t2 = spec_members(
                                        s@,
                                        t as int + 1,
                                        (curfuel - 1) as nat,
                                    ).unwrap().0;
                                    assert((fields_view(oldacc) + seq![kv]) + t2 =~= fields_view(
                                        oldacc,
                                    ) + (seq![kv] + t2));
                                }
                            }
                            cur = t + 1;
                            curfuel = curfuel - 1;
                        } else if t < n && s.get_char(t) == '}' {
                            acc.push((key, v));
                            proof {
                                assert(fields_view(acc@) =~= fields_view(oldacc) + seq![kv]);
                            }
                            return Option::Some((acc, t + 1));
                        } else {
                            return Option::None;
                        }
                    },
                }
            },
        }
    }
}

/// Parse the record starting at `i`.
fn parse_record(s: &str, n: usize, i: usize, fuel: usize) -> (r: Option<(JsonRecord, usize)>)
    requires
        n == s@.len(),
        i <= n,
    ensures
        match r {
            Option::Some((rec, j)) => spec_parse_record(s@, i as int, fuel as nat) == Option::Some(
                (rec@, j as int),
            ) && j <= n,
            Option::None => spec_parse_record(s@, i as int, fuel as nat) is None,
        },
{
    if i < n && s.get_char(i) == '{' {
        let p = skip_ws(s, n, i + 1);
        if p < n && s.get_char(p) == '}' {
            let rec = JsonRecord { fields: Vec::new() };
            proof {
                assert(rec@ =~= Seq::<(Seq<char>, JsonValV)>::empty());
            }
            Option::Some((rec, p + 1))
        } else {
            match parse_members(s, n, i + 1, fuel) {
                Option::Some((v, j)) => Option::Some((JsonRecord { fields: v }, j)),
                Option::None => Option::None,
            }
        }
    } else {
        Option::None
    }
}

/// Parse a whole payload holding one record.
pub fn parse_record_doc(s: &str) -> (r: Option<JsonRecord>)
    ensures
        match r {
            Option::Some(rec) => spec_record_doc(s@) == Option::Some(rec@),
            Option::None => spec_record_doc(s@) is None,
        },
{
    let n = s.unicode_len();
    let p = skip_ws(s, n, 0);
    match parse_record(s, n, p, n) {
        Option::Some((rec, e)) => {
            let q = skip_ws(s, n, e);
            if q == n {
                Option::Some(rec)
            } else {
                Option::None
            }
        },
        Option::None => Option::None,
    }
}

/// Whether the literal `null` stands at `i`.
fn null_at(s: &str, n: usize, i: usize) -> (r: bool)
    requires
        n == s@.len(),
        i <= n,
    ensures
        r == spec_null_at(s@, i as int),
{
    n - i >= 4 && s.get_char(i) == 'n' && s.get_char(i + 1) == 'u' && s.get_char(i + 2) == 'l'
        && s.get_char(i + 3) == 'l'
}

/// Parse a whole payload holding one record or the literal `null`;
/// `Some(None)` means the payload is `null` (the resource is absent).
pub fn parse_opt_record_doc(s: &str) -> (r: Option<Option<JsonRecord>>)
    ensures
        match r {
            Option::Some(Option::Some(rec)) => spec_opt_record_doc(s@) == Option::Some(
                Option::Some(rec@),
            ),
            Option::Some(Option::None) => spec_opt_record_doc(s@) == Option::Some(
                Option::None::<RecordV>,
            ),
            Option::None => spec_opt_record_doc(s@) is None,
        },
{
    let n = s.unicode_len();
    let p = skip_ws(s, n, 0);
    if null_at(s, n, p) {
        let q = skip_ws(s, n, p + 4);
        if q == n {
            Option::Some(Option::None)
        } else {
            Option::None
        }
    } else {
        match parse_record_doc(s) {
            Option::Some(rec) => Option::Some(Option::Some(rec)),
            Option::None => Option::None,
        }
    }
}

/// Parse a whole payload holding one integer.
pub fn parse_int_doc(s: &str) -> (r: Option<i64>)
    ensures
        match r {
            Option::Some(v) => spec_int_doc(s@) == Option::Some(v as int),
            Option::None => spec_int_doc(s@) is None,
        },
{
    let n = s.unicode_len();
    let p = skip_ws(s, n, 0);
    match parse_number(s, n, p) {
        Option::Some((v, e)) => {
            let q = skip_ws(s, n, e);
            if q == n {
                Option::Some(v)
            } else {
                Option::None
            }
        },
        Option::None => Option::None,
    }
}

/// Parse a whole payload holding one array of scalars.
pub fn parse_array_doc(s: &str) -> (r: Option<Vec<Scalar>>)
    ensures
        match r {
            Option::Some(v) => spec_array_doc(s@) == Option::Some(scalars_view(v@)),
            Option::None => spec_array_doc(s@) is None,
        },
{
    let n = s.unicode_len();
    let p = skip_ws(s, n, 0);
    match parse_array(s, n, p, n) {
        Option::Some((a, e)) => {
            let q = skip_ws(s, n, e);
            if q == n {
                Option::Some(a)
            } else {
                Option::None
            }
        },
        Option::None => Option::None,
    }
}

} // verus!
