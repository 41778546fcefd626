use vstd::prelude::*;
use crate::data::opt_view;
use crate::digits::{digit_of, digit_val, hex_of, hex_val, is_digit};
use crate::text::{push_char, str_to_chars};

verus! {

/// The success fields read out of a provider reply.
pub struct ExtractedFields {
    pub name: Option<String>,
    pub emoji: Option<String>,
    pub duration: Option<u32>,
}

/// Spec-level image of `ExtractedFields`.
pub ghost struct Fields {
    pub name: Option<Seq<char>>,
    pub emoji: Option<Seq<char>>,
    pub duration: Option<u32>,
}

impl View for ExtractedFields {
    type V = Fields;

    open spec fn view(&self) -> Fields {
        Fields {
            name: opt_view(self.name),
            emoji: opt_view(self.emoji),
            duration: self.duration,
        }
    }
}

pub open spec fn empty_fields() -> Fields {
    Fields { name: None, emoji: None, duration: None }
}

pub open spec fn is_ws(c: char) -> bool {
    c == ' ' || c == '\n' || c == '\t' || c == '\r'
}

/// First index at or after `i` holding no whitespace.
pub open spec fn spec_ws_end(s: Seq<char>, i: int) -> int
    decreases s.len() - i,
{
    if 0 <= i && i < s.len() && is_ws(s[i]) {
        spec_ws_end(s, i + 1)
    } else {
        i
    }
}

/// The escaped character named by the code after a backslash, if any.
pub open spec fn esc_code(c: char) -> Option<char> {
    if c == '"' {
        Some('"')
    } else if c == '\\' {
        Some('\\')
    } else if c == '/' {
        Some('/')
    } else if c == 'n' {
        Some('\n')
    } else if c == 't' {
        Some('\t')
    } else if c == 'r' {
        Some('\r')
    } else if c == 'b' {
        Some('\u{0008}')
    } else if c == 'f' {
        Some('\u{000C}')
    } else {
        None
    }
}

/// The value of the four hexadecimal digits standing at `i`, or -1
/// where fewer than four stand there.
pub open spec fn spec_hex4(s: Seq<char>, i: int) -> int {
    if 0 <= i && i + 4 <= s.len() && hex_val(s[i]) >= 0 && hex_val(s[i + 1]) >= 0 && hex_val(
        s[i + 2],
    ) >= 0 && hex_val(s[i + 3]) >= 0 {
        4096 * hex_val(s[i]) + 256 * hex_val(s[i + 1]) + 16 * hex_val(s[i + 2]) + hex_val(s[i + 3])
    } else {
        -1
    }
}

/// Read a string-literal body from `i` up to its closing quote,
/// decoding escapes onto `acc`; yields the text and the index after
/// the quote. A `\u` escape carries four hexadecimal digits; a high
/// surrogate must be followed by a `\u` low surrogate, and the pair
/// names one supplementary character; a lone surrogate is refused.
pub open spec fn spec_str_body(s: Seq<char>, i: int, acc: Seq<char>) -> Option<(Seq<char>, int)>
    decreases s.len() - i,
{
    if i < 0 || i >= s.len() {
        None
    } else if s[i] == '"' {
        Some((acc, i + 1))
    } else if s[i] == '\\' {
        if i + 1 < s.len() {
            if s[i + 1] == 'u' {
                let h = spec_hex4(s, i + 2);
                if h < 0 {
                    None
                } else if 0xD800 <= h < 0xDC00 {
                    if i + 8 <= s.len() && s[i + 6] == '\\' && s[i + 7] == 'u' {
                        let l = spec_hex4(s, i + 8);
                        if 0xDC00 <= l < 0xE000 {
                            let v = 0x10000 + (h - 0xD800) * 0x400 + (l - 0xDC00);
                            spec_str_body(s, i + 12, acc.push((v as u32) as char))
                        } else {
                            None
                        }
                    } else {
                        None
                    }
                } else if 0xDC00 <= h < 0xE000 {
                    None
                } else {
                    spec_str_body(s, i + 6, acc.push((h as u32) as char))
                }
            } else {
                match esc_code(s[i + 1]) {
                    Some(c) => spec_str_body(s, i + 2, acc.push(c)),
                    None => None,
                }
            }
        } else {
            None
        }
    } else {
        spec_str_body(s, i + 1, acc.push(s[i]))
    }
}

/// Read a JSON string literal standing at `i`.
pub open spec fn spec_parse_string(s: Seq<char>, i: int) -> Option<(Seq<char>, int)> {
    if 0 <= i && i < s.len() && s[i] == '"' {
        spec_str_body(s, i + 1, Seq::empty())
    } else {
        None
    }
}

/// First index at or after `i` holding no decimal digit.
pub open spec fn spec_digits_end(s: Seq<char>, i: int) -> int
    decreases s.len() - i,
{
    if 0 <= i && i < s.len() && is_digit(s[i]) {
        spec_digits_end(s, i + 1)
    } else {
        i
    }
}

/// The value of the digit run `s[i..j]`, read left to right.
pub open spec fn spec_digits_val(s: Seq<char>, i: int, j: int) -> int
    decreases j - i,
{
    if j <= i {
        0
    } else {
        spec_digits_val(s, i, j - 1) * 10 + digit_val(s[j - 1])
    }
}

/// Read a non-negative integer standing at `i`: at least one digit, no
/// leading zero, value within `u32`.
pub open spec fn spec_parse_number(s: Seq<char>, i: int) -> Option<(u32, int)> {
    let j = spec_digits_end(s, i);
    if i < j && (s[i] != '0' || j == i + 1) && spec_digits_val(s, i, j) <= u32::MAX {
        Some((spec_digits_val(s, i, j) as u32, j))
    } else {
        None
    }
}

/// Read one `"key": value` member at `i` into `f`; a key outside the
/// schema, or one seen before, refuses the whole text.
pub open spec fn spec_parse_pair(s: Seq<char>, i: int, f: Fields) -> Option<(Fields, int)> {
    match spec_parse_string(s, i) {
        None => None,
        Some((key, j)) => {
            let k = spec_ws_end(s, j);
            if k < s.len() && s[k] == ':' {
                let m = spec_ws_end(s, k + 1);
                if key == "name"@ {
                    if f.name is Some {
                        None
                    } else {
                        match spec_parse_string(s, m) {
                            None => None,
                            Some((val, e)) => Some(
                                (Fields { name: Some(val), emoji: f.emoji, duration: f.duration }, e),
                            ),
                        }
                    }
                } else if key == "emoji"@ {
                    if f.emoji is Some {
                        None
                    } else {
                        match spec_parse_string(s, m) {
                            None => None,
                            Some((val, e)) => Some(
                                (Fields { name: f.name, emoji: Some(val), duration: f.duration }, e),
                            ),
                        }
                    }
                } else if key == "duration"@ {
                    if f.duration is Some {
                        None
                    } else {
                        match spec_parse_number(s, m) {
                            None => None,
                            Some((d, e)) => Some(
                                (Fields { name: f.name, emoji: f.emoji, duration: Some(d) }, e),
                            ),
                        }
                    }
                } else {
                    None
                }
            } else {
                None
            }
        },
    }
}

/// After one member: either the closing brace, or up to `more` further
/// comma-led members.
pub open spec fn spec_obj_rest(s: Seq<char>, i: int, f: Fields, more: nat) -> Option<(Fields, int)>
    decreases more,
{
    let k = spec_ws_end(s, i);
    if k < s.len() && s[k] == '}' {
        Some((f, k + 1))
    } else if k < s.len() && s[k] == ',' && more > 0 {
        match spec_parse_pair(s, spec_ws_end(s, k + 1), f) {
            Some((f2, j2)) => spec_obj_rest(s, j2, f2, (more - 1) as nat),
            None => None,
        }
    } else {
        None
    }
}

/// Read the schema object standing at `i`: `{}` or one to three
/// distinct members among name, emoji and duration.
pub open spec fn spec_parse_object(s: Seq<char>, i: int) -> Option<(Fields, int)> {
    if 0 <= i && i < s.len() && s[i] == '{' {
        let j = spec_ws_end(s, i + 1);
        if j < s.len() && s[j] == '}' {
            Some((empty_fields(), j + 1))
        } else {
            match spec_parse_pair(s, j, empty_fields()) {
                Some((f1, j1)) => spec_obj_rest(s, j1, f1, 2),
                None => None,
            }
        }
    } else {
        None
    }
}

/// The whole reply: one schema object, nothing but whitespace around it.
pub open spec fn spec_parse_extraction(s: Seq<char>) -> Option<Fields> {
    match spec_parse_object(s, spec_ws_end(s, 0)) {
        Some((f, j)) => {
            if spec_ws_end(s, j) == s.len() {
                Some(f)
            } else {
                None
            }
        },
        None => None,
    }
}

fn is_ws_exec(c: char) -> (r: bool)
    ensures
        r == is_ws(c),
{
    c == ' ' || c == '\n' || c == '\t' || c == '\r'
}

fn skip_ws(v: &Vec<char>, i: usize) -> (j: usize)
    requires
        i <= v.len(),
    ensures
        j == spec_ws_end(v@, i as int),
        i <= j <= v.len(),
{
    let mut j = i;
    while j < v.len() && is_ws_exec(v[j])
        invariant
            i <= j <= v.len(),
            spec_ws_end(v@, i as int) == spec_ws_end(v@, j as int),
        decreases v.len() - j,
    {
        j = j + 1;
    }
    j
}

/// Relies on `char::from_u32`: on every Unicode scalar value it
/// returns `Some` of the character with that value.
#[verifier::external_body]
fn char_from_scalar(v: u32) -> (c: char)
    requires
        v < 0xD800 || (0xE000 <= v && v <= 0x10FFFF),
    ensures
        c == (v as char),
{
    char::from_u32(v).unwrap()
}

fn read_hex4(v: &Vec<char>, i: usize) -> (r: Option<u32>)
    requires
        i <= v.len(),
    ensures
        r is Some <==> spec_hex4(v@, i as int) >= 0,
        r matches Some(h) ==> h == spec_hex4(v@, i as int) && h <= 0xFFFF,
{
    if v.len() >= 4 && i <= v.len() - 4 {
        let h0 = hex_of(v[i]);
        let h1 = hex_of(v[i + 1]);
        let h2 = hex_of(v[i + 2]);
        let h3 = hex_of(v[i + 3]);
        match (h0, h1, h2, h3) {
            (Some(a), Some(b), Some(c), Some(d)) => Some(4096 * a + 256 * b + 16 * c + d),
            _ => None,
        }
    } else {
        None
    }
}

fn parse_str_body(v: &Vec<char>, i: usize, acc: String) -> (r: Option<(String, usize)>)
    requires
        i <= v.len(),
    ensures
        r is Some <==> spec_str_body(v@, i as int, acc@) is Some,
        r matches Some(p) ==> (spec_str_body(v@, i as int, acc@) matches Some(q) && p.0@ == q.0
            && p.1 == q.1 && p.1 <= v.len()),
    decreases v.len() - i,
{
    if i >= v.len() {
        return None;
    }
    let c = v[i];
    if c == '"' {
        Some((acc, i + 1))
    } else if c == '\\' {
        if i + 1 < v.len() {
            let e = v[i + 1];
            if e == 'u' {
                return match read_hex4(v, i + 2) {
                    None => None,
                    Some(h) => {
                        proof {
                            assert(i + 6 <= v.len());
                        }
                        if 0xD800 <= h && h < 0xDC00 {
                            if v.len() >= 8 && i <= v.len() - 8 && v[i + 6] == '\\' && v[i + 7]
                                == 'u' {
                                match read_hex4(v, i + 8) {
                                    None => None,
                                    Some(l) => {
                                        if 0xDC00 <= l && l < 0xE000 {
                                            let scalar = 0x10000 + (h - 0xD800) * 0x400 + (l
                                                - 0xDC00);
                                            let d = char_from_scalar(scalar);
                                            let mut acc2 = acc;
                                            push_char(&mut acc2, d);
                                            parse_str_body(v, i + 12, acc2)
                                        } else {
                                            None
                                        }
                                    },
                                }
                            } else {
                                None
                            }
                        } else if 0xDC00 <= h && h < 0xE000 {
                            None
                        } else {
                            let d = char_from_scalar(h);
                            let mut acc2 = acc;
                            push_char(&mut acc2, d);
                            parse_str_body(v, i + 6, acc2)
                        }
                    },
                };
            }
            let dec: Option<char> = if e == '"' {
                Some('"')
            } else if e == '\\' {
                Some('\\')
            } else if e == '/' {
                Some('/')
            } else if e == 'n' {
                Some('\n')
            } else if e == 't' {
                Some('\t')
            } else if e == 'r' {
                Some('\r')
            } else if e == 'b' {
                Some('\u{0008}')
            } else if e == 'f' {
                Some('\u{000C}')
            } else {
                None
            };
            match dec {
                Some(d) => {
                    let mut acc2 = acc;
                    push_char(&mut acc2, d);
                    parse_str_body(v, i + 2, acc2)
                },
                None => None,
            }
        } else {
            None
        }
    } else {
        let mut acc2 = acc;
        push_char(&mut acc2, c);
        parse_str_body(v, i + 1, acc2)
    }
}

fn parse_string(v: &Vec<char>, i: usize) -> (r: Option<(String, usize)>)
    requires
        i <= v.len(),
    ensures
        r is Some <==> spec_parse_string(v@, i as int) is Some,
        r matches Some(p) ==> (spec_parse_string(v@, i as int) matches Some(q) && p.0@ == q.0
            && p.1 == q.1 && p.1 <= v.len()),
{
    if i < v.len() && v[i] == '"' {
        parse_str_body(v, i + 1, String::new())
    } else {
        None
    }
}

proof fn lemma_digits_end_digits(s: Seq<char>, i: int)
    requires
        0 <= i <= s.len(),
    ensures
        i <= spec_digits_end(s, i) <= s.len(),
        forall|t: int| i <= t < spec_digits_end(s, i) ==> is_digit(#[trigger] s[t]),
    decreases s.len() - i,
{
    if i < s.len() && is_digit(s[i]) {
        lemma_digits_end_digits(s, i + 1);
    }
}

proof fn lemma_digits_val_nonneg(s: Seq<char>, i: int, j: int)
    requires
        forall|t: int| i <= t < j ==> is_digit(#[trigger] s[t]),
    ensures
        spec_digits_val(s, i, j) >= 0,
    decreases j - i,
{
    if j > i {
        lemma_digits_val_nonneg(s, i, j - 1);
    }
}

/// The value of a digit run only grows as the run lengthens.
proof fn lemma_digits_val_mono(s: Seq<char>, i: int, j: int, k: int)
    requires
        i <= j <= k,
        forall|t: int| i <= t < k ==> is_digit(#[trigger] s[t]),
    ensures
        spec_digits_val(s, i, j) <= spec_digits_val(s, i, k),
    decreases k - j,
{
    if j < k {
        lemma_digits_val_mono(s, i, j, k - 1);
        lemma_digits_val_nonneg(s, i, k - 1);
    }
}

fn parse_number(v: &Vec<char>, i: usize) -> (r: Option<(u32, usize)>)
    requires
        i <= v.len(),
    ensures
        r is Some <==> spec_parse_number(v@, i as int) is Some,
        r matches Some(p) ==> (spec_parse_number(v@, i as int) matches Some(q) && p.0 == q.0
            && p.1 == q.1 && p.1 <= v.len()),
{
    let mut j = i;
    while j < v.len() && digit_of(v[j]).is_some()
        invariant
            i <= j <= v.len(),
            spec_digits_end(v@, i as int) == spec_digits_end(v@, j as int),
        decreases v.len() - j,
    {
        j = j + 1;
    }
    proof {
        lemma_digits_end_digits(v@, i as int);
    }
    if j == i {
        return None;
    }
    if v[i] == '0' && j != i + 1 {
        return None;
    }
    let mut val: u64 = 0;
    let mut k = i;
    while k < j
        invariant
            i <= k <= j <= v.len(),
            j == spec_digits_end(v@, i as int),
            forall|t: int| i <= t < j ==> is_digit(#[trigger] v@[t]),
            val <= u32::MAX,
            val as int == spec_digits_val(v@, i as int, k as int),
        decreases j - k,
    {
        let d = match digit_of(v[k]) {
            Some(d) => d,
            None => {
                // every character of the run is a digit
                proof {
                    assert(is_digit(v@[k as int]));
                }
                return None;
            },
        };
        val = val * 10 + (d as u64);
        k = k + 1;
        if val > (u32::MAX as u64) {
            proof {
                lemma_digits_val_mono(v@, i as int, k as int, j as int);
            }
            return None;
        }
    }
    Some((val as u32, j))
}

fn parse_pair(v: &Vec<char>, i: usize, f: ExtractedFields) -> (r: Option<(ExtractedFields, usize)>)
    requires
        i <= v.len(),
    ensures
        r is Some <==> spec_parse_pair(v@, i as int, f@) is Some,
        r matches Some(p) ==> (spec_parse_pair(v@, i as int, f@) matches Some(q) && p.0@ == q.0
            && p.1 == q.1 && p.1 <= v.len()),
{
    match parse_string(v, i) {
        None => None,
        Some((key, j)) => {
            let k = skip_ws(v, j);
            if k < v.len() && v[k] == ':' {
                let m = skip_ws(v, k + 1);
                let name_key = "name".to_owned();
                let emoji_key = "emoji".to_owned();
                let duration_key = "duration".to_owned();
                if key == name_key {
                    if f.name.is_some() {
                        None
                    } else {
                        match parse_string(v, m) {
                            None => None,
                            Some((val, e)) => Some(
                                (
                                    ExtractedFields {
                                        name: Some(val),
                                        emoji: f.emoji,
                                        duration: f.duration,
                                    },
                                    e,
                                ),
                            ),
                        }
                    }
                } else if key == emoji_key {
                    if f.emoji.is_some() {
                        None
                    } else {
                        match parse_string(v, m) {
                            None => None,
                            Some((val, e)) => Some(
                                (
                                    ExtractedFields {
                                        name: f.name,
                                        emoji: Some(val),
                                        duration: f.duration,
                                    },
                                    e,
                                ),
                            ),
                        }
                    }
                } else if key == duration_key {
                    if f.duration.is_some() {
                        None
                    } else {
                        match parse_number(v, m) {
                            None => None,
                            Some((d, e)) => Some(
                                (
                                    ExtractedFields {
                                        name: f.name,
                                        emoji: f.emoji,
                                        duration: Some(d),
                                    },
                                    e,
                                ),
                            ),
                        }
                    }
                } else {
                    None
                }
            } else {
                None
            }
        },
    }
}

fn parse_obj_rest(v: &Vec<char>, i: usize, f: ExtractedFields, more: u8) -> (r: Option<
    (ExtractedFields, usize),
>)
    requires
        i <= v.len(),
    ensures
        r is Some <==> spec_obj_rest(v@, i as int, f@, more as nat) is Some,
        r matches Some(p) ==> (spec_obj_rest(v@, i as int, f@, more as nat) matches Some(q)
            && p.0@ == q.0 && p.1 == q.1 && p.1 <= v.len()),
    decreases more,
{
    let k = skip_ws(v, i);
    if k < v.len() && v[k] == '}' {
        Some((f, k + 1))
    } else if k < v.len() && v[k] == ',' && more > 0 {
        let m = skip_ws(v, k + 1);
        match parse_pair(v, m, f) {
            None => None,
            Some((f2, j2)) => parse_obj_rest(v, j2, f2, more - 1),
        }
    } else {
        None
    }
}

fn parse_object(v: &Vec<char>, i: usize) -> (r: Option<(ExtractedFields, usize)>)
    requires
        i <= v.len(),
    ensures
        r is Some <==> spec_parse_object(v@, i as int) is Some,
        r matches Some(p) ==> (spec_parse_object(v@, i as int) matches Some(q) && p.0@ == q.0
            && p.1 == q.1 && p.1 <= v.len()),
{
    if i < v.len() && v[i] == '{' {
        let j = skip_ws(v, i + 1);
        if j < v.len() && v[j] == '}' {
            Some((ExtractedFields { name: None, emoji: None, duration: None }, j + 1))
        } else {
            match parse_pair(v, j, ExtractedFields { name: None, emoji: None, duration: None }) {
                Some((f1, j1)) => parse_obj_rest(v, j1, f1, 2),
                None => None,
            }
        }
    } else {
        None
    }
}

/// Parse a raw provider reply into the expected schema shape; any text
/// outside the shape is refused as a whole. The reply is treated as
/// adversarial input, so the reader is deliberately narrower than a
/// general JSON reader: members outside the schema, repeated members
/// and `null` values are refused rather than skipped, and a duration
/// must be a plain non-negative integer.
pub fn parse_extraction(raw: &str) -> (r: Option<ExtractedFields>)
    ensures
        r is Some <==> spec_parse_extraction(raw@) is Some,
        r matches Some(f) ==> (spec_parse_extraction(raw@) matches Some(q) && f@ == q),
{
    let v = str_to_chars(raw);
    let i = skip_ws(&v, 0);
    match parse_object(&v, i) {
        None => None,
        Some((f, j)) => {
            let e = skip_ws(&v, j);
            if e == v.len() {
                Some(f)
            } else {
                None
            }
        },
    }
}

} // verus!
