//! The document model: a JSON tree of scalars, arrays and objects, together
//! with a serializer whose output is pinned down exactly by the spec
//! function `rendered`. Numbers are carried as their literal text, so any
//! JSON number round-trips unchanged.

use vstd::prelude::*;
use vstd::string::*;
use crate::text::push_char;

verus! {

/// A JSON value. Object members keep their order; a number keeps its
/// literal text.
#[derive(Debug, PartialEq, Eq)]
pub enum Json {
    Null,
    Bool(bool),
    Num(String),
    Text(String),
    Arr(Vec<Json>),
    Obj(Vec<(String, Json)>),
}

/// The lower-case hexadecimal digit for a value below sixteen.
pub open spec fn hex_digit(n: int) -> char {
    if n == 0 { '0' }
    else if n == 1 { '1' }
    else if n == 2 { '2' }
    else if n == 3 { '3' }
    else if n == 4 { '4' }
    else if n == 5 { '5' }
    else if n == 6 { '6' }
    else if n == 7 { '7' }
    else if n == 8 { '8' }
    else if n == 9 { '9' }
    else if n == 10 { 'a' }
    else if n == 11 { 'b' }
    else if n == 12 { 'c' }
    else if n == 13 { 'd' }
    else if n == 14 { 'e' }
    else { 'f' }
}

/// How one character appears inside a JSON string literal: quote and
/// backslash are escaped, the common control characters get their short
/// escapes, other control characters get a `\u00XX` escape, and everything
/// else stands for itself.
pub open spec fn escaped_char(c: char) -> Seq<char> {
    if c == '"' { seq!['\\', '"'] }
    else if c == '\\' { seq!['\\', '\\'] }
    else if c == '\n' { seq!['\\', 'n'] }
    else if c == '\r' { seq!['\\', 'r'] }
    else if c == '\t' { seq!['\\', 't'] }
    else if (c as u32) < 0x20 {
        seq!['\\', 'u', '0', '0', hex_digit((c as u32) as int / 16), hex_digit((c as u32) as int % 16)]
    }
    else { seq![c] }
}

/// A whole string as it appears inside a JSON string literal.
pub open spec fn escaped(s: Seq<char>) -> Seq<char>
    decreases s.len(),
{
    if s.len() == 0 {
        Seq::<char>::empty()
    } else {
        escaped(s.drop_last()) + escaped_char(s.last())
    }
}

/// The serialized form of a JSON value.
pub open spec fn rendered(v: Json) -> Seq<char>
    decreases v,
{
    match v {
        Json::Null => "null"@,
        Json::Bool(b) => if b { "true"@ } else { "false"@ },
        Json::Num(t) => t@,
        Json::Text(t) => seq!['"'] + escaped(t@) + seq!['"'],
        Json::Arr(es) => seq!['['] + rendered_items(es@) + seq![']'],
        Json::Obj(fs) => seq!['{'] + rendered_fields(fs@) + seq!['}'],
    }
}

/// Array elements, serialized and joined with commas.
pub open spec fn rendered_items(es: Seq<Json>) -> Seq<char>
    decreases es,
{
    if es.len() == 0 {
        Seq::<char>::empty()
    } else if es.len() == 1 {
        rendered(es.last())
    } else {
        rendered_items(es.drop_last()) + seq![','] + rendered(es.last())
    }
}

/// One object member: quoted key, colon, value.
pub open spec fn rendered_field(f: (String, Json)) -> Seq<char>
    decreases f,
{
    seq!['"'] + escaped(f.0@) + seq!['"', ':'] + rendered(f.1)
}

/// Object members, serialized and joined with commas.
pub open spec fn rendered_fields(fs: Seq<(String, Json)>) -> Seq<char>
    decreases fs,
{
    if fs.len() == 0 {
        Seq::<char>::empty()
    } else if fs.len() == 1 {
        rendered_field(fs.last())
    } else {
        rendered_fields(fs.drop_last()) + seq![','] + rendered_field(fs.last())
    }
}

fn hex_digit_char(n: u8) -> (r: char)
    requires
        n < 16,
    ensures
        r == hex_digit(n as int),
{
    if n == 0 { '0' }
    else if n == 1 { '1' }
    else if n == 2 { '2' }
    else if n == 3 { '3' }
    else if n == 4 { '4' }
    else if n == 5 { '5' }
    else if n == 6 { '6' }
    else if n == 7 { '7' }
    else if n == 8 { '8' }
    else if n == 9 { '9' }
    else if n == 10 { 'a' }
    else if n == 11 { 'b' }
    else if n == 12 { 'c' }
    else if n == 13 { 'd' }
    else if n == 14 { 'e' }
    else { 'f' }
}

fn write_escaped_char(c: char, out: &mut String)
    ensures
        final(out)@ == old(out)@ + escaped_char(c),
{
    if c == '"' {
        out.append("\\\"");
        proof {
            reveal_strlit("\\\"");
            assert("\\\""@ =~= escaped_char(c));
        }
    } else if c == '\\' {
        out.append("\\\\");
        proof {
            reveal_strlit("\\\\");
            assert("\\\\"@ =~= escaped_char(c));
        }
    } else if c == '\n' {
        out.append("\\n");
        proof {
            reveal_strlit("\\n");
            assert("\\n"@ =~= escaped_char(c));
        }
    } else if c == '\r' {
        out.append("\\r");
        proof {
            reveal_strlit("\\r");
            assert("\\r"@ =~= escaped_char(c));
        }
    } else if c == '\t' {
        out.append("\\t");
        proof {
            reveal_strlit("\\t");
            assert("\\t"@ =~= escaped_char(c));
        }
    } else if (c as u32) < 0x20 {
        let code = c as u32;
        out.append("\\u00");
        push_char(out, hex_digit_char((code / 16) as u8));
        push_char(out, hex_digit_char((code % 16) as u8));
        proof {
            reveal_strlit("\\u00");
            assert("\\u00"@ + seq![hex_digit((c as u32) as int / 16)]
                + seq![hex_digit((c as u32) as int % 16)] =~= escaped_char(c));
        }
    } else {
        push_char(out, c);
        proof {
            assert(seq![c] =~= escaped_char(c));
        }
    }
}

fn write_string_literal(s: &str, out: &mut String)
    ensures
        final(out)@ == old(out)@ + seq!['"'] + escaped(s@) + seq!['"'],
{
    push_char(out, '"');
    let ghost base: Seq<char> = out@;
    let n = s.unicode_len();
    let mut i: usize = 0;
    while i < n
        invariant
            i <= n,
            n == s@.len(),
            out@ == base + escaped(s@.take(i as int)),
        decreases n - i,
    {
        let c = s.get_char(i);
        write_escaped_char(c, out);
        proof {
            let pre = s@.take(i as int + 1);
            assert(pre.drop_last() =~= s@.take(i as int));
            assert(pre.last() == s@[i as int]);
        }
        i = i + 1;
    }
    proof {
        assert(s@.take(n as int) =~= s@);
    }
    push_char(out, '"');
    proof {
        assert(old(out)@ + seq!['"'] + escaped(s@) + seq!['"'] =~= (old(out)@ + seq!['"']
            + escaped(s@)) + seq!['"']);
    }
}

/// Appends the serialized form of a value to the output string.
fn write_json(v: &Json, out: &mut String)
    ensures
        final(out)@ == old(out)@ + rendered(*v),
    decreases *v,
{
    match v {
        Json::Null => {
            out.append("null");
        },
        Json::Bool(b) => {
            if *b {
                out.append("true");
            } else {
                out.append("false");
            }
        },
        Json::Num(t) => {
            out.append(t.as_str());
        },
        Json::Text(t) => {
            write_string_literal(t.as_str(), out);
            proof {
                assert(old(out)@ + (seq!['"'] + escaped(t@) + seq!['"']) =~= (old(out)@
                    + seq!['"']) + escaped(t@) + seq!['"']);
            }
        },
        Json::Arr(es) => {
            push_char(out, '[');
            let ghost base: Seq<char> = out@;
            let n = es.len();
            let mut i: usize = 0;
            while i < n
                invariant
                    i <= n,
                    n == es@.len(),
                    v == &Json::Arr(*es),
                    out@ == base + rendered_items(es@.take(i as int)),
                decreases n - i,
            {
                if i > 0 {
                    push_char(out, ',');
                }
                proof {
                    assert(decreases_to!(*v => (*v)->Arr_0));
                    assert((*v)->Arr_0 == *es);
                    assert(decreases_to!(*es => es@));
                    assert(decreases_to!(es@ => es@[i as int]));
                }
                write_json(&es[i], out);
                proof {
                    let pre = es@.take(i as int + 1);
                    assert(pre.drop_last() =~= es@.take(i as int));
                    assert(pre.last() == es@[i as int]);
                    if i == 0 {
                        assert(rendered_items(pre) == rendered(es@[0]));
                        assert(es@.take(0int) =~= Seq::<Json>::empty());
                    }
                }
                i = i + 1;
            }
            proof {
                assert(es@.take(n as int) =~= es@);
            }
            push_char(out, ']');
            proof {
                assert(old(out)@ + (seq!['['] + rendered_items(es@) + seq![']']) =~= (old(out)@
                    + seq!['[']) + rendered_items(es@) + seq![']']);
            }
        },
        Json::Obj(fs) => {
            push_char(out, '{');
            let ghost base: Seq<char> = out@;
            let n = fs.len();
            let mut i: usize = 0;
            while i < n
                invariant
                    i <= n,
                    n == fs@.len(),
                    v == &Json::Obj(*fs),
                    out@ == base + rendered_fields(fs@.take(i as int)),
                decreases n - i,
            {
                if i > 0 {
                    push_char(out, ',');
                }
                let ghost before: Seq<char> = out@;
                write_string_literal(fs[i].0.as_str(), out);
                push_char(out, ':');
                proof {
                    assert(decreases_to!(*v => (*v)->Obj_0));
                    assert((*v)->Obj_0 == *fs);
                    assert(decreases_to!(*fs => fs@));
                    assert(decreases_to!(fs@ => fs@[i as int]));
                    assert(decreases_to!(fs@[i as int] => fs@[i as int].1));
                }
                write_json(&fs[i].1, out);
                proof {
                    let pre = fs@.take(i as int + 1);
                    assert(pre.drop_last() =~= fs@.take(i as int));
                    assert(pre.last() == fs@[i as int]);
                    assert(before + seq!['"'] + escaped(fs@[i as int].0@) + seq!['"'] + seq![':']
                        + rendered(fs@[i as int].1) =~= before + rendered_field(fs@[i as int]));
                    if i == 0 {
                        assert(rendered_fields(pre) == rendered_field(fs@[0]));
                        assert(fs@.take(0int) =~= Seq::<(String, Json)>::empty());
                    }
                }
                i = i + 1;
            }
            proof {
                assert(fs@.take(n as int) =~= fs@);
            }
            push_char(out, '}');
            proof {
                assert(old(out)@ + (seq!['{'] + rendered_fields(fs@) + seq!['}']) =~= (old(out)@
                    + seq!['{']) + rendered_fields(fs@) + seq!['}']);
            }
        },
    }
}

/// Escaping changes nothing in a string whose characters all stand for
/// themselves.
pub proof fn lemma_escaped_plain(s: Seq<char>)
    requires
        forall|i: int| 0 <= i < s.len() ==> escaped_char(#[trigger] s[i]) == seq![s[i]],
    ensures
        escaped(s) == s,
    decreases s.len(),
{
    if s.len() > 0 {
        assert(forall|i: int| 0 <= i < s.drop_last().len() ==> s.drop_last()[i] == s[i]);
        lemma_escaped_plain(s.drop_last());
        assert(escaped(s) =~= s);
    }
}

/// Serializes a JSON value to its textual form.
pub fn to_json_text(v: &Json) -> (r: String)
    ensures
        r@ == rendered(*v),
{
    let mut out = String::new();
    write_json(v, &mut out);
    out
}

} // verus!
