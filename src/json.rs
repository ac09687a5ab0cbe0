//! A small JSON text writer for flat objects, with a mathematical model of
//! the text it produces.

use vstd::prelude::*;

verus! {

/// The character of a decimal digit.
pub open spec fn digit_char(d: nat) -> char
    recommends
        d < 10,
{
    ((d + 48) as u8) as char
}

/// The decimal digits of `n`, most significant first, without leading zeros.
pub open spec fn decimal(n: nat) -> Seq<char>
    decreases n,
{
    if n < 10 {
        seq![digit_char(n)]
    } else {
        decimal(n / 10) + seq![digit_char(n % 10)]
    }
}

/// A JSON integer literal for `n`.
pub open spec fn integer_text(n: int) -> Seq<char> {
    if n < 0 {
        seq!['-'] + decimal((-n) as nat)
    } else {
        decimal(n as nat)
    }
}

fn digit_str(d: u64) -> (r: &'static str)
    requires
        d < 10,
    ensures
        r@ == seq![digit_char(d as nat)],
{
    proof {
        reveal_strlit("0");
        reveal_strlit("1");
        reveal_strlit("2");
        reveal_strlit("3");
        reveal_strlit("4");
        reveal_strlit("5");
        reveal_strlit("6");
        reveal_strlit("7");
        reveal_strlit("8");
        reveal_strlit("9");
    }
    match d {
        0 => "0",
        1 => "1",
        2 => "2",
        3 => "3",
        4 => "4",
        5 => "5",
        6 => "6",
        7 => "7",
        8 => "8",
        _ => "9",
    }
}

/// Appends the decimal digits of `n`.
pub fn push_decimal(out: &mut String, n: u64)
    ensures
        final(out)@ == old(out)@ + decimal(n as nat),
    decreases n,
{
    if n >= 10 {
        push_decimal(out, n / 10);
    }
    out.append(digit_str(n % 10));
    assert(out@ =~= old(out)@ + decimal(n as nat));
}

/// Appends the JSON literal of a signed integer.
pub fn push_integer(out: &mut String, n: i64)
    ensures
        final(out)@ == old(out)@ + integer_text(n as int),
{
    if n < 0 {
        proof {
            reveal_strlit("-");
        }
        out.append("-");
        // the magnitude of i64::MIN does not fit in i64, but fits in u64
        let m: u64 = ((-(n + 1)) as u64) + 1;
        assert(m as int == -(n as int));
        push_decimal(out, m);
        assert(out@ =~= old(out)@ + integer_text(n as int));
    } else {
        push_decimal(out, n as u64);
    }
}

/// The value of one member of a JSON object.
pub enum Field {
    Null,
    Bool(bool),
    Int(int),
    Text(Seq<char>),
    /// An object whose members are all strings, in the given order.
    TextMap(Seq<(Seq<char>, Seq<char>)>),
}

/// A lowercase hexadecimal digit.
pub open spec fn hex_digit(d: nat) -> char
    recommends
        d < 16,
{
    if d < 10 {
        digit_char(d)
    } else {
        ((d + 87) as u8) as char
    }
}

/// How one character stands inside a JSON string literal: the quote, the
/// backslash and the control characters are escaped, the short form where
/// JSON has one and `\u00xx` otherwise; every other character stands as it is.
pub open spec fn escape_char(c: char) -> Seq<char> {
    if c == '"' {
        seq!['\\', '"']
    } else if c == '\\' {
        seq!['\\', '\\']
    } else if c == '\x08' {
        seq!['\\', 'b']
    } else if c == '\t' {
        seq!['\\', 't']
    } else if c == '\n' {
        seq!['\\', 'n']
    } else if c == '\x0c' {
        seq!['\\', 'f']
    } else if c == '\r' {
        seq!['\\', 'r']
    } else if (c as u32) < 0x20 {
        seq!['\\', 'u', '0', '0', hex_digit((c as u32 / 16) as nat), hex_digit((c as u32 % 16) as nat)]
    } else {
        seq![c]
    }
}

/// The characters of `s`, each escaped.
pub open spec fn escaped(s: Seq<char>) -> Seq<char>
    decreases s.len(),
{
    if s.len() == 0 {
        Seq::empty()
    } else {
        escaped(s.drop_last()) + escape_char(s.last())
    }
}

/// The JSON string literal of `s`.
pub open spec fn json_string(s: Seq<char>) -> Seq<char> {
    seq!['"'] + escaped(s) + seq!['"']
}

/// The members `"k":"v"` of a string-valued object, separated by commas.
pub open spec fn text_pairs_text(m: Seq<(Seq<char>, Seq<char>)>) -> Seq<char>
    decreases m.len(),
{
    if m.len() == 0 {
        Seq::empty()
    } else {
        let last = m.last();
        let sep = if m.len() > 1 {
            seq![',']
        } else {
            Seq::empty()
        };
        text_pairs_text(m.drop_last()) + sep + json_string(last.0) + seq![':'] + json_string(last.1)
    }
}

pub open spec fn bool_text(b: bool) -> Seq<char> {
    if b {
        "true"@
    } else {
        "false"@
    }
}

/// The JSON text of a member's value.
pub open spec fn field_text(f: Field) -> Seq<char> {
    match f {
        Field::Null => "null"@,
        Field::Bool(b) => bool_text(b),
        Field::Int(n) => integer_text(n),
        Field::Text(s) => json_string(s),
        Field::TextMap(m) => seq!['{'] + text_pairs_text(m) + seq!['}'],
    }
}

/// The members `"key":value` of an object, separated by commas. Keys are
/// written between quotes as they are: they are plain identifiers.
pub open spec fn members_text(fs: Seq<(Seq<char>, Field)>) -> Seq<char>
    decreases fs.len(),
{
    if fs.len() == 0 {
        Seq::empty()
    } else {
        let last = fs.last();
        let sep = if fs.len() > 1 {
            seq![',']
        } else {
            Seq::empty()
        };
        members_text(fs.drop_last()) + sep + seq!['"'] + last.0 + seq!['"', ':'] + field_text(
            last.1,
        )
    }
}

/// The JSON text of an object with the given members, in order.
pub open spec fn object_text(fs: Seq<(Seq<char>, Field)>) -> Seq<char> {
    seq!['{'] + members_text(fs) + seq!['}']
}

/// The value of the first member at or after position `i` whose key is `key`.
pub open spec fn member_from(fs: Seq<(Seq<char>, Field)>, key: Seq<char>, i: int) -> Option<Field>
    decreases fs.len() - i,
{
    if i < 0 || i >= fs.len() {
        None
    } else if fs[i].0 == key {
        Some(fs[i].1)
    } else {
        member_from(fs, key, i + 1)
    }
}

/// The value a reader finds under `key`: that of the first member with it.
pub open spec fn member(fs: Seq<(Seq<char>, Field)>, key: Seq<char>) -> Option<Field> {
    member_from(fs, key, 0)
}

#[verifier::external_type_specification]
#[verifier::external_body]
pub struct ExJsonError(serde_json::Error);

/// Relies on serde_json::to_string applied to a str: it writes the escaped
/// string literal into a `Vec<u8>`, a write that cannot fail.
#[verifier::external_body]
fn quote(s: &str) -> (r: Result<String, serde_json::Error>)
    ensures
        r is Ok,
        r matches Ok(t) ==> t@ == json_string(s@),
{
    serde_json::to_string(s)
}

/// Appends the JSON string literal of `s`.
pub fn push_quoted(out: &mut String, s: &str) -> (r: Result<(), serde_json::Error>)
    ensures
        r is Ok,
        final(out)@ == old(out)@ + json_string(s@),
{
    let t = quote(s)?;
    out.append(t.as_str());
    Ok(())
}

/// An executable member value; its view is the `Field` it writes.
pub enum FieldValue {
    Null,
    Bool(bool),
    UInt(u64),
    Int(i64),
    Text(String),
    TextMap(Vec<(String, String)>),
}

pub open spec fn pairs_view(m: Seq<(String, String)>) -> Seq<(Seq<char>, Seq<char>)> {
    m.map_values(|p: (String, String)| (p.0@, p.1@))
}

pub open spec fn members_view(fs: Seq<(&'static str, FieldValue)>) -> Seq<(Seq<char>, Field)> {
    fs.map_values(|p: (&'static str, FieldValue)| (p.0@, p.1@))
}

impl View for FieldValue {
    type V = Field;

    open spec fn view(&self) -> Field {
        match self {
            FieldValue::Null => Field::Null,
            FieldValue::Bool(b) => Field::Bool(*b),
            FieldValue::UInt(n) => Field::Int(*n as int),
            FieldValue::Int(n) => Field::Int(*n as int),
            FieldValue::Text(s) => Field::Text(s@),
            FieldValue::TextMap(m) => Field::TextMap(pairs_view(m@)),
        }
    }
}

/// Appends a string-valued object, members in the order of `m`.
fn push_text_map(out: &mut String, m: &Vec<(String, String)>) -> (r: Result<(), serde_json::Error>)
    ensures
        r is Ok,
        final(out)@ == old(out)@ + field_text(Field::TextMap(pairs_view(m@))),
{
    proof {
        reveal_strlit("{");
        reveal_strlit("}");
    }
    let ghost start = out@;
    let ghost pv = pairs_view(m@);
    out.append("{");
    let mut i: usize = 0;
    while i < m.len()
        invariant
            i <= m@.len(),
            pv == pairs_view(m@),
            out@ == start + seq!['{'] + text_pairs_text(pv.take(i as int)),
        decreases m@.len() - i,
    {
        proof {
            reveal_strlit(",");
            reveal_strlit(":");
        }
        let ghost before = out@;
        if i > 0 {
            out.append(",");
        }
        let ghost sep = if i > 0 {
            seq![',']
        } else {
            Seq::<char>::empty()
        };
        assert(out@ =~= before + sep);
        assert(pv[i as int] == (m@[i as int].0@, m@[i as int].1@));
        push_quoted(out, m[i].0.as_str())?;
        out.append(":");
        assert(out@ =~= before + sep + json_string(pv[i as int].0) + seq![':']);
        push_quoted(out, m[i].1.as_str())?;
        assert(out@ =~= before + sep + json_string(pv[i as int].0) + seq![':'] + json_string(
            pv[i as int].1,
        ));
        proof {
            let t = pv.take(i + 1);
            assert(t.drop_last() =~= pv.take(i as int));
            assert(t.last() == pv[i as int]);
            assert(text_pairs_text(t) == text_pairs_text(pv.take(i as int)) + sep + json_string(
                pv[i as int].0,
            ) + seq![':'] + json_string(pv[i as int].1));
            assert(out@ =~= start + seq!['{'] + text_pairs_text(t));
        }
        i += 1;
    }
    out.append("}");
    assert(pv.take(m@.len() as int) =~= pv);
    assert(out@ =~= old(out)@ + field_text(Field::TextMap(pv)));
    Ok(())
}

/// Appends the JSON text of a member's value.
pub fn push_value(out: &mut String, v: &FieldValue) -> (r: Result<(), serde_json::Error>)
    ensures
        r is Ok,
        final(out)@ == old(out)@ + field_text(v@),
{
    match v {
        FieldValue::Null => out.append("null"),
        FieldValue::Bool(b) => {
            if *b {
                out.append("true");
            } else {
                out.append("false");
            }
        },
        FieldValue::UInt(n) => push_decimal(out, *n),
        FieldValue::Int(n) => push_integer(out, *n),
        FieldValue::Text(s) => push_quoted(out, s.as_str())?,
        FieldValue::TextMap(m) => push_text_map(out, m)?,
    }
    Ok(())
}

/// Appends a JSON object with the members of `fs`, in order.
pub fn push_object(out: &mut String, fs: &Vec<(&'static str, FieldValue)>) -> (r: Result<
    (),
    serde_json::Error,
>)
    ensures
        r is Ok,
        final(out)@ == old(out)@ + object_text(members_view(fs@)),
{
    proof {
        reveal_strlit("{");
        reveal_strlit("}");
    }
    let ghost start = out@;
    let ghost mv = members_view(fs@);
    out.append("{");
    let mut i: usize = 0;
    while i < fs.len()
        invariant
            i <= fs@.len(),
            mv == members_view(fs@),
            out@ == start + seq!['{'] + members_text(mv.take(i as int)),
        decreases fs@.len() - i,
    {
        proof {
            reveal_strlit(",");
            reveal_strlit("\"");
            reveal_strlit("\":");
        }
        let ghost before = out@;
        if i > 0 {
            out.append(",");
        }
        let ghost sep = if i > 0 {
            seq![',']
        } else {
            Seq::<char>::empty()
        };
        assert(out@ =~= before + sep);
        out.append("\"");
        out.append(fs[i].0);
        out.append("\":");
        assert(mv[i as int] == (fs@[i as int].0@, fs@[i as int].1@));
        assert(out@ =~= before + sep + seq!['"'] + mv[i as int].0 + seq!['"', ':']);
        push_value(out, &fs[i].1)?;
        assert(out@ =~= before + sep + seq!['"'] + mv[i as int].0 + seq!['"', ':'] + field_text(
            mv[i as int].1,
        ));
        proof {
            let t = mv.take(i + 1);
            assert(t.drop_last() =~= mv.take(i as int));
            assert(t.last() == mv[i as int]);
            assert(mv[i as int].0 == fs@[i as int].0@);
            assert(members_text(t) == members_text(mv.take(i as int)) + sep + seq!['"'] + mv[i
                as int].0 + seq!['"', ':'] + field_text(mv[i as int].1));
            assert(out@ =~= start + seq!['{'] + members_text(t));
        }
        i += 1;
    }
    out.append("}");
    assert(mv.take(fs@.len() as int) =~= mv);
    assert(out@ =~= old(out)@ + object_text(mv));
    Ok(())
}

} // verus!
