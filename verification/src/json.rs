//! The JSON values the dispatcher sends as call payloads, and their
//! rendering as compact wire text.

use vstd::prelude::*;
use crate::strings;

verus! {

/// One JSON value. Numbers are held as their JSON token text, so the
/// model stays free of machine floating point; the dispatcher itself
/// never builds a number, the variant exists for payloads handed in
/// by the host.
pub enum JsonValue {
    Null,
    Bool(bool),
    Num(String),
    Str(String),
    Arr(Vec<JsonValue>),
    Obj(Vec<(String, JsonValue)>),
}

/// A decimal digit.
pub open spec fn is_digit(c: char) -> bool {
    0x30 <= c as u32 && c as u32 <= 0x39
}

/// One or more decimal digits.
pub open spec fn all_digits(s: Seq<char>) -> bool {
    s.len() > 0 && forall|i: int| 0 <= i < s.len() ==> is_digit(s[i])
}

/// The integer part of a number token: an optional minus sign, then
/// `0` alone or digits without a leading zero.
pub open spec fn int_part_wf(s: Seq<char>) -> bool {
    let d = if s.len() > 0 && s[0] == '-' {
        s.drop_first()
    } else {
        s
    };
    all_digits(d) && (d[0] == '0' ==> d.len() == 1)
}

/// An optional fraction part: empty, or a point followed by digits.
pub open spec fn frac_part_wf(s: Seq<char>) -> bool {
    s.len() == 0 || (s[0] == '.' && all_digits(s.drop_first()))
}

/// An optional exponent part: empty, or `e`/`E`, an optional sign,
/// and digits.
pub open spec fn exp_part_wf(s: Seq<char>) -> bool {
    s.len() == 0 || ((s[0] == 'e' || s[0] == 'E') && {
        let d = s.drop_first();
        let m = if d.len() > 0 && (d[0] == '+' || d[0] == '-') {
            d.drop_first()
        } else {
            d
        };
        all_digits(m)
    })
}

/// A JSON number token: integer part, optional fraction, optional
/// exponent.
pub open spec fn num_token_wf(t: Seq<char>) -> bool {
    exists|i: Seq<char>, f: Seq<char>, e: Seq<char>|
        t == i + f + e && int_part_wf(i) && frac_part_wf(f) && exp_part_wf(e)
}

/// A value all of whose number tokens are well formed. Since
/// [`text_of`] emits number tokens as they stand, the rendered text
/// is a JSON document exactly for such values.
pub open spec fn wf(v: JsonValue) -> bool
    decreases v,
{
    match v {
        JsonValue::Null => true,
        JsonValue::Bool(_) => true,
        JsonValue::Num(t) => num_token_wf(t@),
        JsonValue::Str(_) => true,
        JsonValue::Arr(items) => wf_items(items@),
        JsonValue::Obj(fields) => wf_fields(fields@),
    }
}

/// [`wf`] over every element of a JSON array.
pub open spec fn wf_items(items: Seq<JsonValue>) -> bool
    decreases items,
{
    items.len() == 0 || (wf(items.last()) && wf_items(items.drop_last()))
}

/// [`wf`] over every member value of a JSON object.
pub open spec fn wf_fields(fields: Seq<(String, JsonValue)>) -> bool
    decreases fields,
{
    fields.len() == 0 || (wf(fields.last().1) && wf_fields(fields.drop_last()))
}

/// The lowercase hexadecimal digit for `n`.
pub open spec fn hex_digit(n: int) -> char {
    if n == 0 {
        '0'
    } else if n == 1 {
        '1'
    } else if n == 2 {
        '2'
    } else if n == 3 {
        '3'
    } else if n == 4 {
        '4'
    } else if n == 5 {
        '5'
    } else if n == 6 {
        '6'
    } else if n == 7 {
        '7'
    } else if n == 8 {
        '8'
    } else if n == 9 {
        '9'
    } else if n == 10 {
        'a'
    } else if n == 11 {
        'b'
    } else if n == 12 {
        'c'
    } else if n == 13 {
        'd'
    } else if n == 14 {
        'e'
    } else {
        'f'
    }
}

/// How one character stands inside a JSON string literal: quote and
/// backslash are escaped, control characters take their short escape
/// or a `\u00XY` form with lowercase hex, everything else stands as
/// itself.
pub open spec fn escape_char(c: char) -> Seq<char> {
    if c == '"' {
        seq!['\\', '"']
    } else if c == '\\' {
        seq!['\\', '\\']
    } else if c == '\u{0008}' {
        seq!['\\', 'b']
    } else if c == '\u{0009}' {
        seq!['\\', 't']
    } else if c == '\u{000A}' {
        seq!['\\', 'n']
    } else if c == '\u{000C}' {
        seq!['\\', 'f']
    } else if c == '\u{000D}' {
        seq!['\\', 'r']
    } else if (c as u32) < 0x20 {
        seq!['\\', 'u', '0', '0', hex_digit(((c as u32) as int) / 16), hex_digit(((c as u32) as int) % 16)]
    } else {
        seq![c]
    }
}

/// The body of a JSON string literal: every character escaped.
pub open spec fn escape_text(s: Seq<char>) -> Seq<char>
    decreases s.len(),
{
    if s.len() == 0 {
        Seq::empty()
    } else {
        escape_text(s.drop_last()) + escape_char(s.last())
    }
}

/// A JSON string literal: the escaped text between quotes.
pub open spec fn quoted(s: Seq<char>) -> Seq<char> {
    seq!['"'] + escape_text(s) + seq!['"']
}

/// The compact rendering of one JSON value. Number tokens are
/// emitted as they stand, so the result is a JSON document exactly
/// when [`wf`] holds of the value.
pub open spec fn text_of(v: JsonValue) -> Seq<char>
    decreases v,
{
    match v {
        JsonValue::Null => "null"@,
        JsonValue::Bool(b) => if b {
            "true"@
        } else {
            "false"@
        },
        JsonValue::Num(t) => t@,
        JsonValue::Str(s) => quoted(s@),
        JsonValue::Arr(items) => seq!['['] + items_text(items@) + seq![']'],
        JsonValue::Obj(fields) => seq!['{'] + fields_text(fields@) + seq!['}'],
    }
}

/// The comma-separated elements of a JSON array.
pub open spec fn items_text(items: Seq<JsonValue>) -> Seq<char>
    decreases items,
{
    if items.len() == 0 {
        Seq::empty()
    } else if items.len() == 1 {
        text_of(items[0])
    } else {
        items_text(items.drop_last()) + seq![','] + text_of(items.last())
    }
}

/// One `"key":value` member of a JSON object, from the key and the
/// value's rendered text.
pub open spec fn member_text(key: Seq<char>, value_text: Seq<char>) -> Seq<char> {
    quoted(key) + seq![':'] + value_text
}

/// The comma-separated `"key":value` members of a JSON object.
pub open spec fn fields_text(fields: Seq<(String, JsonValue)>) -> Seq<char>
    decreases fields,
{
    if fields.len() == 0 {
        Seq::empty()
    } else if fields.len() == 1 {
        member_text(fields[0].0@, text_of(fields[0].1))
    } else {
        fields_text(fields.drop_last()) + seq![','] + member_text(
            fields.last().0@,
            text_of(fields.last().1),
        )
    }
}

/// The lowercase hexadecimal digit for `n`, executable form.
fn hex_digit_char(n: u32) -> (r: char)
    requires
        n < 16,
    ensures
        r == hex_digit(n as int),
{
    if n == 0 {
        '0'
    } else if n == 1 {
        '1'
    } else if n == 2 {
        '2'
    } else if n == 3 {
        '3'
    } else if n == 4 {
        '4'
    } else if n == 5 {
        '5'
    } else if n == 6 {
        '6'
    } else if n == 7 {
        '7'
    } else if n == 8 {
        '8'
    } else if n == 9 {
        '9'
    } else if n == 10 {
        'a'
    } else if n == 11 {
        'b'
    } else if n == 12 {
        'c'
    } else if n == 13 {
        'd'
    } else if n == 14 {
        'e'
    } else {
        'f'
    }
}

/// Appends the escaped form of one string-literal character.
fn push_escaped(c: char, out: &mut Vec<char>)
    ensures
        final(out)@ == old(out)@ + escape_char(c),
{
    if c == '"' {
        out.push('\\');
        out.push('"');
    } else if c == '\\' {
        out.push('\\');
        out.push('\\');
    } else if c == '\u{0008}' {
        out.push('\\');
        out.push('b');
    } else if c == '\u{0009}' {
        out.push('\\');
        out.push('t');
    } else if c == '\u{000A}' {
        out.push('\\');
        out.push('n');
    } else if c == '\u{000C}' {
        out.push('\\');
        out.push('f');
    } else if c == '\u{000D}' {
        out.push('\\');
        out.push('r');
    } else if (c as u32) < 0x20 {
        out.push('\\');
        out.push('u');
        out.push('0');
        out.push('0');
        out.push(hex_digit_char((c as u32) / 16));
        out.push(hex_digit_char((c as u32) % 16));
    } else {
        out.push(c);
    }
    proof {
        assert(out@ =~= old(out)@ + escape_char(c));
    }
}

/// Appends the characters of `s` unchanged.
fn push_str_chars(s: &str, out: &mut Vec<char>)
    ensures
        final(out)@ == old(out)@ + s@,
{
    let mut cs = strings::str_chars(s);
    out.append(&mut cs);
}

/// Appends `s` as a JSON string literal.
fn push_quoted(s: &str, out: &mut Vec<char>)
    ensures
        final(out)@ == old(out)@ + quoted(s@),
{
    out.push('"');
    let cs = strings::str_chars(s);
    let ghost base = out@;
    let mut i: usize = 0;
    while i < cs.len()
        invariant
            i <= cs.len(),
            cs@ == s@,
            out@ == base + escape_text(cs@.subrange(0, i as int)),
        decreases cs.len() - i,
    {
        push_escaped(cs[i], out);
        proof {
            assert(cs@.subrange(0, i + 1).drop_last() =~= cs@.subrange(0, i as int));
            assert(cs@.subrange(0, i + 1).last() == cs@[i as int]);
        }
        i += 1;
    }
    proof {
        assert(cs@.subrange(0, cs@.len() as int) =~= cs@);
    }
    out.push('"');
    proof {
        assert(out@ =~= old(out)@ + quoted(s@));
    }
}

/// Appends the compact wire text of one JSON value.
fn write_value(v: &JsonValue, out: &mut Vec<char>)
    ensures
        final(out)@ == old(out)@ + text_of(*v),
    decreases *v,
{
    match v {
        JsonValue::Null => {
            push_str_chars("null", out);
        },
        JsonValue::Bool(b) => {
            if *b {
                push_str_chars("true", out);
            } else {
                push_str_chars("false", out);
            }
        },
        JsonValue::Num(t) => {
            push_str_chars(t.as_str(), out);
        },
        JsonValue::Str(s) => {
            push_quoted(s.as_str(), out);
        },
        JsonValue::Arr(items) => {
            out.push('[');
            let ghost base = out@;
            let mut i: usize = 0;
            while i < items.len()
                invariant
                    i <= items.len(),
                    *v == JsonValue::Arr(*items),
                    out@ == base + items_text(items@.subrange(0, i as int)),
                decreases items.len() - i,
            {
                if i > 0 {
                    out.push(',');
                }
                proof {
                    assert(v->Arr_0 == *items);
                    assert(decreases_to!(*v => v->Arr_0));
                    assert(decreases_to!(*items => items@));
                    assert(decreases_to!(items@ => items@[i as int]));
                    assert(decreases_to!(*v => items@[i as int]));
                }
                write_value(&items[i], out);
                proof {
                    assert(items@.subrange(0, i + 1).drop_last() =~= items@.subrange(0, i as int));
                    assert(items@.subrange(0, i + 1).last() == items@[i as int]);
                    assert(out@ =~= base + items_text(items@.subrange(0, i + 1)));
                }
                i += 1;
            }
            proof {
                assert(items@.subrange(0, items@.len() as int) =~= items@);
            }
            out.push(']');
            proof {
                assert(out@ =~= old(out)@ + text_of(*v));
            }
        },
        JsonValue::Obj(fields) => {
            out.push('{');
            let ghost base = out@;
            let mut i: usize = 0;
            while i < fields.len()
                invariant
                    i <= fields.len(),
                    *v == JsonValue::Obj(*fields),
                    out@ == base + fields_text(fields@.subrange(0, i as int)),
                decreases fields.len() - i,
            {
                if i > 0 {
                    out.push(',');
                }
                push_quoted(fields[i].0.as_str(), out);
                out.push(':');
                proof {
                    assert(v->Obj_0 == *fields);
                    assert(decreases_to!(*v => v->Obj_0));
                    assert(decreases_to!(*fields => fields@));
                    assert(decreases_to!(fields@ => fields@[i as int]));
                    assert(decreases_to!(fields@[i as int] => fields@[i as int].1));
                    assert(decreases_to!(*v => fields@[i as int].1));
                }
                write_value(&fields[i].1, out);
                proof {
                    assert(fields@.subrange(0, i + 1).drop_last() =~= fields@.subrange(
                        0,
                        i as int,
                    ));
                    assert(fields@.subrange(0, i + 1).last() == fields@[i as int]);
                    assert(out@ =~= base + fields_text(fields@.subrange(0, i + 1)));
                }
                i += 1;
            }
            proof {
                assert(fields@.subrange(0, fields@.len() as int) =~= fields@);
            }
            out.push('}');
            proof {
                assert(out@ =~= old(out)@ + text_of(*v));
            }
        },
    }
}

/// Renders one JSON value as its compact wire text, the form the
/// transport hands to the backend process; see [`text_of`] and
/// [`wf`] for when that text is a JSON document.
pub fn to_json_text(v: &JsonValue) -> (r: String)
    ensures
        r@ == text_of(*v),
{
    let mut out: Vec<char> = Vec::new();
    write_value(v, &mut out);
    strings::chars_string(&out)
}

} // verus!
