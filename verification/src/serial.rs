use vstd::prelude::*;
use vstd::string::*;
use crate::data::{Memo, MemoView, WeeklyRequest};
use crate::digits::{append_u32_dec, hex_digit_char, hex_digit_char_exec, spec_u32_dec};
use crate::text::{
    contains_seq, lemma_contains_concat_l, lemma_contains_concat_r, lemma_contains_in_middle,
    lemma_contains_self, push_char,
};

verus! {

/// The escape of one character inside a JSON string literal: the
/// quote, the backslash, the five control characters with short
/// escapes, and every other control character as a `\u00..` escape in
/// lower-case hexadecimal.
pub open spec fn esc1(c: char) -> Seq<char> {
    if c == '"' {
        seq!['\\', '"']
    } else if c == '\\' {
        seq!['\\', '\\']
    } else if c == '\n' {
        seq!['\\', 'n']
    } else if c == '\r' {
        seq!['\\', 'r']
    } else if c == '\t' {
        seq!['\\', 't']
    } else if c == '\u{0008}' {
        seq!['\\', 'b']
    } else if c == '\u{000C}' {
        seq!['\\', 'f']
    } else if (c as u32) < 0x20 {
        seq![
            '\\',
            'u',
            '0',
            '0',
            hex_digit_char((c as u32) as int / 16),
            hex_digit_char((c as u32) as int % 16),
        ]
    } else {
        seq![c]
    }
}

/// The body of a JSON string literal for `s`: every character escaped.
pub open spec fn spec_escape(s: Seq<char>) -> Seq<char>
    decreases s.len(),
{
    if s.len() == 0 {
        Seq::empty()
    } else {
        spec_escape(s.drop_last()) + esc1(s.last())
    }
}

/// A character that the JSON string escape leaves as it stands.
pub open spec fn unescaped_char(c: char) -> bool {
    c != '"' && c != '\\' && (c as u32) >= 0x20
}

/// A text that the JSON string escape leaves verbatim.
pub open spec fn unescaped(s: Seq<char>) -> bool {
    forall|i: int| 0 <= i < s.len() ==> unescaped_char(#[trigger] s[i])
}

/// Escaping leaves an escape-free text unchanged.
pub proof fn lemma_escape_unescaped(s: Seq<char>)
    requires
        unescaped(s),
    ensures
        spec_escape(s) == s,
    decreases s.len(),
{
    if s.len() > 0 {
        assert(unescaped(s.drop_last())) by {
            assert(forall|i: int|
                0 <= i < s.drop_last().len() ==> s.drop_last()[i] == #[trigger] s[i]);
        }
        lemma_escape_unescaped(s.drop_last());
        assert(unescaped_char(s.last()));
        assert(spec_escape(s) =~= s);
    } else {
        assert(spec_escape(s) =~= s);
    }
}

/// A JSON string literal: quotes around the escaped body.
pub open spec fn spec_json_str(s: Seq<char>) -> Seq<char> {
    seq!['"'] + spec_escape(s) + seq!['"']
}

/// The JSON object for one activity record, fields in declaration order.
pub open spec fn spec_memo_json(m: MemoView) -> Seq<char> {
    "{\"genre\":"@ + spec_json_str(m.genre) + ",\"name\":"@ + spec_json_str(m.name)
        + ",\"duration\":"@ + spec_u32_dec(m.duration as int) + ",\"memo\":"@ + spec_json_str(
        m.memo,
    ) + "}"@
}

/// The JSON array body for a batch of records, comma separated.
pub open spec fn spec_memos_json(ms: Seq<MemoView>) -> Seq<char>
    decreases ms.len(),
{
    if ms.len() == 0 {
        Seq::empty()
    } else if ms.len() == 1 {
        spec_memo_json(ms[0])
    } else {
        spec_memos_json(ms.drop_last()) + ","@ + spec_memo_json(ms.last())
    }
}

/// The serialized form of a whole weekly-report request.
pub open spec fn spec_weekly_json(ms: Seq<MemoView>) -> Seq<char> {
    "{\"memos\":["@ + spec_memos_json(ms) + "]}"@
}

/// An escape-free text stands verbatim inside its JSON string literal.
pub proof fn lemma_json_str_embeds(s: Seq<char>)
    requires
        unescaped(s),
    ensures
        contains_seq(spec_json_str(s), s),
{
    lemma_escape_unescaped(s);
    lemma_contains_self(s);
    lemma_contains_in_middle(seq!['"'], s, seq!['"'], s);
}

/// Each field of a record stands verbatim in its JSON object, the
/// duration as its decimal text, provided the texts are escape-free.
pub proof fn lemma_memo_json_embeds(m: MemoView)
    requires
        unescaped(m.genre),
        unescaped(m.name),
        unescaped(m.memo),
    ensures
        contains_seq(spec_memo_json(m), m.genre),
        contains_seq(spec_memo_json(m), m.name),
        contains_seq(spec_memo_json(m), spec_u32_dec(m.duration as int)),
        contains_seq(spec_memo_json(m), m.memo),
{
    let a = "{\"genre\":"@;
    let jg = spec_json_str(m.genre);
    let b = ",\"name\":"@;
    let jn = spec_json_str(m.name);
    let c = ",\"duration\":"@;
    let dc = spec_u32_dec(m.duration as int);
    let d = ",\"memo\":"@;
    let jm = spec_json_str(m.memo);
    let e = "}"@;
    let x1 = a + jg;
    let x2 = x1 + b;
    let x3 = x2 + jn;
    let x4 = x3 + c;
    let x5 = x4 + dc;
    let x6 = x5 + d;
    let x7 = x6 + jm;
    let x8 = x7 + e;
    assert(spec_memo_json(m) == x8);
    // genre
    lemma_json_str_embeds(m.genre);
    lemma_contains_concat_r(a, jg, m.genre);
    lemma_contains_concat_l(x1, b, m.genre);
    lemma_contains_concat_l(x2, jn, m.genre);
    lemma_contains_concat_l(x3, c, m.genre);
    lemma_contains_concat_l(x4, dc, m.genre);
    lemma_contains_concat_l(x5, d, m.genre);
    lemma_contains_concat_l(x6, jm, m.genre);
    lemma_contains_concat_l(x7, e, m.genre);
    // name
    lemma_json_str_embeds(m.name);
    lemma_contains_concat_r(x2, jn, m.name);
    lemma_contains_concat_l(x3, c, m.name);
    lemma_contains_concat_l(x4, dc, m.name);
    lemma_contains_concat_l(x5, d, m.name);
    lemma_contains_concat_l(x6, jm, m.name);
    lemma_contains_concat_l(x7, e, m.name);
    // duration
    lemma_contains_self(dc);
    lemma_contains_concat_r(x4, dc, dc);
    lemma_contains_concat_l(x5, d, dc);
    lemma_contains_concat_l(x6, jm, dc);
    lemma_contains_concat_l(x7, e, dc);
    // memo
    lemma_json_str_embeds(m.memo);
    lemma_contains_concat_r(x6, jm, m.memo);
    lemma_contains_concat_l(x7, e, m.memo);
}

/// Each record's JSON object stands whole in the serialized batch.
pub proof fn lemma_memos_json_contains(ms: Seq<MemoView>, k: int)
    requires
        0 <= k < ms.len(),
    ensures
        contains_seq(spec_memos_json(ms), spec_memo_json(ms[k])),
    decreases ms.len(),
{
    if ms.len() == 1 {
        lemma_contains_self(spec_memo_json(ms[0]));
    } else if k == ms.len() - 1 {
        lemma_contains_self(spec_memo_json(ms.last()));
        lemma_contains_concat_r(
            spec_memos_json(ms.drop_last()) + ","@,
            spec_memo_json(ms.last()),
            spec_memo_json(ms[k]),
        );
    } else {
        lemma_memos_json_contains(ms.drop_last(), k);
        assert(ms.drop_last()[k] == ms[k]);
        lemma_contains_concat_l(
            spec_memos_json(ms.drop_last()),
            ","@,
            spec_memo_json(ms[k]),
        );
        lemma_contains_concat_l(
            spec_memos_json(ms.drop_last()) + ","@,
            spec_memo_json(ms.last()),
            spec_memo_json(ms[k]),
        );
    }
}

/// Each record stands whole, field by field, in the serialized request:
/// the record's object inside the array, inside the outer object.
pub proof fn lemma_weekly_json_contains(ms: Seq<MemoView>, k: int)
    requires
        0 <= k < ms.len(),
    ensures
        contains_seq(spec_weekly_json(ms), spec_memo_json(ms[k])),
{
    lemma_memos_json_contains(ms, k);
    lemma_contains_in_middle("{\"memos\":["@, spec_memos_json(ms), "]}"@, spec_memo_json(ms[k]));
}

/// Append the escaped body of a JSON string literal for `s`.
fn append_escaped(out: &mut String, s: &str)
    ensures
        final(out)@ == old(out)@ + spec_escape(s@),
{
    let chars = crate::text::str_to_chars(s);
    let n = chars.len();
    let ghost base = out@;
    let mut i: usize = 0;
    while i < n
        invariant
            chars@ == s@,
            n == chars@.len(),
            i <= n,
            out@ == base + spec_escape(s@.subrange(0, i as int)),
        decreases n - i,
    {
        let c = chars[i];
        if c == '"' {
            push_char(out, '\\');
            push_char(out, '"');
        } else if c == '\\' {
            push_char(out, '\\');
            push_char(out, '\\');
        } else if c == '\n' {
            push_char(out, '\\');
            push_char(out, 'n');
        } else if c == '\r' {
            push_char(out, '\\');
            push_char(out, 'r');
        } else if c == '\t' {
            push_char(out, '\\');
            push_char(out, 't');
        } else if c == '\u{0008}' {
            push_char(out, '\\');
            push_char(out, 'b');
        } else if c == '\u{000C}' {
            push_char(out, '\\');
            push_char(out, 'f');
        } else if (c as u32) < 0x20 {
            let b = c as u32;
            push_char(out, '\\');
            push_char(out, 'u');
            push_char(out, '0');
            push_char(out, '0');
            push_char(out, hex_digit_char_exec(b / 16));
            push_char(out, hex_digit_char_exec(b % 16));
        } else {
            push_char(out, c);
        }
        proof {
            assert(s@.subrange(0, i + 1 as int).drop_last() =~= s@.subrange(0, i as int));
            assert(s@.subrange(0, i + 1 as int).last() == s@[i as int]);
            assert(out@ =~= base + spec_escape(s@.subrange(0, i + 1 as int)));
        }
        i = i + 1;
    }
    proof {
        assert(s@.subrange(0, n as int) =~= s@);
    }
}

/// Append the JSON string literal for `s`.
fn append_json_str(out: &mut String, s: &str)
    ensures
        final(out)@ == old(out)@ + spec_json_str(s@),
{
    let ghost base = out@;
    push_char(out, '"');
    append_escaped(out, s);
    push_char(out, '"');
    proof {
        assert(out@ =~= base + spec_json_str(s@));
    }
}

/// Append the JSON object for one record.
fn append_memo_json(out: &mut String, m: &Memo)
    ensures
        final(out)@ == old(out)@ + spec_memo_json(m@),
{
    let ghost base = out@;
    out.append("{\"genre\":");
    append_json_str(out, m.genre.as_str());
    out.append(",\"name\":");
    append_json_str(out, m.name.as_str());
    out.append(",\"duration\":");
    append_u32_dec(out, m.duration);
    out.append(",\"memo\":");
    append_json_str(out, m.memo.as_str());
    out.append("}");
    proof {
        assert(out@ =~= base + spec_memo_json(m@));
    }
}

/// Serialize a weekly-report request to the textual form the prompt
/// builder embeds.
pub fn serialize_weekly(req: &WeeklyRequest) -> (s: String)
    ensures
        s@ == spec_weekly_json(req@),
{
    let mut out = "{\"memos\":[".to_owned();
    let ghost head = "{\"memos\":["@;
    let n = req.memos.len();
    let mut i: usize = 0;
    while i < n
        invariant
            n == req.memos@.len(),
            req@ == req.memos@.map_values(|m: Memo| m@),
            i <= n,
            out@ == head + spec_memos_json(req@.subrange(0, i as int)),
        decreases n - i,
    {
        if i > 0 {
            out.append(",");
        }
        append_memo_json(&mut out, &req.memos[i]);
        proof {
            let prefix = req@.subrange(0, i as int);
            let next = req@.subrange(0, i + 1 as int);
            assert(next.drop_last() =~= prefix);
            assert(next.last() == req@[i as int]);
            assert(req@[i as int] == req.memos@[i as int]@);
            if i == 0 {
                assert(out@ =~= head + spec_memos_json(next));
            } else {
                assert(out@ =~= head + spec_memos_json(next));
            }
        }
        i = i + 1;
    }
    out.append("]}");
    proof {
        assert(req@.subrange(0, n as int) =~= req@);
        assert(out@ =~= spec_weekly_json(req@));
    }
    out
}

} // verus!
