//! The text layer of the wire format, for the outgoing direction: renders a
//! structured value to JSON text, character by character, so that what goes
//! out over the connection is exactly what the specification below says.
//!
//! Numbers are decimal; strings are quoted, with the two JSON
//! metacharacters backslash-escaped, the common control characters in their
//! short forms, and the remaining control characters as `\u00..` sequences;
//! arrays and objects render their elements in order, comma-separated.

use crate::json::Json;
use vstd::prelude::*;
use vstd::string::StrSliceExecFns;

verus! {

/// The digit character for a value below 16: decimal, then lower-case hex.
pub open spec fn spec_digit_char(d: int) -> char {
    if d < 10 {
        ((48 + d) as u8) as char
    } else {
        ((87 + d) as u8) as char
    }
}

/// The escaped form of one character inside a JSON string literal.
pub open spec fn spec_escape_char(c: char) -> Seq<char> {
    if c == '"' {
        seq!['\\', '"']
    } else if c == '\\' {
        seq!['\\', '\\']
    } else if c == '\n' {
        seq!['\\', 'n']
    } else if c == '\r' {
        seq!['\\', 'r']
    } else if c == '\t' {
        seq!['\\', 't']
    } else if (c as u32) < 32 {
        seq![
            '\\',
            'u',
            '0',
            '0',
            spec_digit_char(c as u32 as int / 16),
            spec_digit_char(c as u32 as int % 16),
        ]
    } else {
        seq![c]
    }
}

/// The escaped form of a whole string, without the surrounding quotes.
pub open spec fn spec_escape(s: Seq<char>) -> Seq<char>
    decreases s.len(),
{
    if s.len() == 0 {
        Seq::empty()
    } else {
        spec_escape(s.drop_last()) + spec_escape_char(s.last())
    }
}

/// The decimal digits of a non-negative number (empty for a negative one,
/// which [`spec_int_text`] never passes down).
pub open spec fn spec_digits(n: int) -> Seq<char>
    decreases n,
{
    if n < 0 {
        Seq::empty()
    } else if n < 10 {
        seq![spec_digit_char(n)]
    } else {
        spec_digits(n / 10).push(spec_digit_char(n % 10))
    }
}

/// The decimal text of a number, sign included.
pub open spec fn spec_int_text(n: int) -> Seq<char> {
    if n < 0 {
        seq!['-'] + spec_digits(-n)
    } else {
        spec_digits(n)
    }
}

/// The JSON text of a value.
pub open spec fn spec_json_text(j: Json) -> Seq<char>
    decreases j,
{
    match j {
        Json::Null => "null"@,
        Json::Bool(b) => if b {
            "true"@
        } else {
            "false"@
        },
        Json::Int(n) => spec_int_text(n as int),
        Json::Str(s) => seq!['"'] + spec_escape(s@) + seq!['"'],
        Json::Arr(items) => seq!['['] + spec_arr_text(items@) + seq![']'],
        Json::Obj(fields) => seq!['{'] + spec_obj_text(fields@) + seq!['}'],
    }
}

/// The comma-separated texts of an array's elements.
pub open spec fn spec_arr_text(items: Seq<Json>) -> Seq<char>
    decreases items,
{
    if items.len() == 0 {
        Seq::empty()
    } else if items.len() == 1 {
        spec_json_text(items[0])
    } else {
        spec_arr_text(items.drop_last()) + seq![','] + spec_json_text(items.last())
    }
}

/// The text of one object field: quoted key, colon, value.
pub open spec fn spec_field_text(f: (String, Json)) -> Seq<char>
    decreases f,
{
    seq!['"'] + spec_escape(f.0@) + seq!['"', ':'] + spec_json_text(f.1)
}

/// The comma-separated texts of an object's fields.
pub open spec fn spec_obj_text(fields: Seq<(String, Json)>) -> Seq<char>
    decreases fields,
{
    if fields.len() == 0 {
        Seq::empty()
    } else if fields.len() == 1 {
        spec_field_text(fields[0])
    } else {
        spec_obj_text(fields.drop_last()) + seq![','] + spec_field_text(fields.last())
    }
}

/// The digit character for a value below 16.
fn digit_char(d: u8) -> (c: char)
    requires
        d < 16,
    ensures
        c == spec_digit_char(d as int),
{
    if d < 10 {
        (48 + d) as char
    } else {
        (87 + d) as char
    }
}

/// Appends the quoted, escaped form of a string.
#[verifier::loop_isolation(false)]
fn render_string(s: &String, out: &mut Vec<char>)
    ensures
        final(out)@ == old(out)@ + seq!['"'] + spec_escape(s@) + seq!['"'],
{
    out.push('"');
    let ghost base = out@;
    let n = s.as_str().unicode_len();
    let mut i: usize = 0;
    proof {
        assert(s@.subrange(0, 0) =~= Seq::<char>::empty());
    }
    while i < n
        invariant
            i <= n,
            n == s@.len(),
            out@ == base + spec_escape(s@.subrange(0, i as int)),
        decreases n - i,
    {
        let c = s.as_str().get_char(i);
        if c == '"' {
            out.push('\\');
            out.push('"');
        } else if c == '\\' {
            out.push('\\');
            out.push('\\');
        } else if c == '\n' {
            out.push('\\');
            out.push('n');
        } else if c == '\r' {
            out.push('\\');
            out.push('r');
        } else if c == '\t' {
            out.push('\\');
            out.push('t');
        } else if (c as u32) < 32 {
            out.push('\\');
            out.push('u');
            out.push('0');
            out.push('0');
            out.push(digit_char((c as u32 / 16) as u8));
            out.push(digit_char((c as u32 % 16) as u8));
        } else {
            out.push(c);
        }
        proof {
            let pre = s@.subrange(0, i as int + 1);
            assert(pre.drop_last() =~= s@.subrange(0, i as int));
            assert(pre.last() == s@[i as int]);
            assert(out@ =~= base + spec_escape(pre));
        }
        i = i + 1;
    }
    proof {
        assert(s@.subrange(0, n as int) =~= s@);
    }
    out.push('"');
    proof {
        assert(out@ =~= old(out)@ + seq!['"'] + spec_escape(s@) + seq!['"']);
    }
}

/// Appends the decimal text of a number.
#[verifier::loop_isolation(false)]
fn render_int(n: i64, out: &mut Vec<char>)
    ensures
        final(out)@ == old(out)@ + spec_int_text(n as int),
{
    let m: u64 = if n < 0 {
        out.push('-');
        (-(n as i128)) as u64
    } else {
        n as u64
    };
    let ghost base = out@;
    let ghost m0 = m as int;
    if m == 0 {
        out.push('0');
        proof {
            assert(out@ =~= old(out)@ + spec_int_text(n as int));
        }
        return ;
    }
    let mut digits: Vec<char> = Vec::new();
    let mut x = m;
    proof {
        assert(digits@.reverse() =~= Seq::<char>::empty());
    }
    while x > 0
        invariant
            spec_digits(m0) == (if x > 0 {
                spec_digits(x as int)
            } else {
                Seq::<char>::empty()
            }) + digits@.reverse(),
        decreases x,
    {
        let d: u8 = (x % 10) as u8;
        let ghost before = digits@;
        digits.push((48 + d) as char);
        proof {
            assert((48 + d) as char == spec_digit_char(x as int % 10));
            assert(digits@.reverse() =~= seq![spec_digit_char(x as int % 10)] + before.reverse());
            if x >= 10 {
                assert(spec_digits(x as int) == spec_digits(x as int / 10).push(
                    spec_digit_char(x as int % 10),
                ));
                assert(spec_digits(x as int / 10).push(spec_digit_char(x as int % 10))
                    + before.reverse() =~= spec_digits(x as int / 10) + digits@.reverse());
            } else {
                assert(spec_digits(x as int) == seq![spec_digit_char(x as int)]);
                assert(seq![spec_digit_char(x as int)] + before.reverse() =~= digits@.reverse());
            }
        }
        x = x / 10;
    }
    let mut k: usize = digits.len();
    proof {
        assert(digits@.reverse().subrange(0, 0) =~= Seq::<char>::empty());
    }
    while k > 0
        invariant
            k <= digits@.len(),
            out@ == base + digits@.reverse().subrange(0, digits@.len() - k),
        decreases k,
    {
        k = k - 1;
        out.push(digits[k]);
        proof {
            assert(out@ =~= base + digits@.reverse().subrange(
                0,
                digits@.len() - k,
            ));
        }
    }
    proof {
        assert(digits@.reverse().subrange(0, digits@.len() as int) =~= digits@.reverse());
        assert(out@ =~= old(out)@ + spec_int_text(n as int));
    }
}

/// Appends the JSON text of a value.
#[verifier::loop_isolation(false)]
fn render_into(j: &Json, out: &mut Vec<char>)
    ensures
        final(out)@ == old(out)@ + spec_json_text(*j),
    decreases *j,
{
    match j {
        Json::Null => {
            out.push('n');
            out.push('u');
            out.push('l');
            out.push('l');
            proof {
                reveal_strlit("null");
                assert(out@ =~= old(out)@ + spec_json_text(*j));
            }
        },
        Json::Bool(b) => {
            if *b {
                out.push('t');
                out.push('r');
                out.push('u');
                out.push('e');
            } else {
                out.push('f');
                out.push('a');
                out.push('l');
                out.push('s');
                out.push('e');
            }
            proof {
                reveal_strlit("true");
                reveal_strlit("false");
                assert(out@ =~= old(out)@ + spec_json_text(*j));
            }
        },
        Json::Int(n) => {
            render_int(*n, out);
        },
        Json::Str(s) => {
            render_string(s, out);
        },
        Json::Arr(items) => {
            out.push('[');
            let ghost base = out@;
            let n = items.len();
            let mut i: usize = 0;
            proof {
                assert(items@.subrange(0, 0) =~= Seq::<Json>::empty());
            }
            while i < n
                invariant
                    i <= n,
                    n == items@.len(),
                    out@ == base + spec_arr_text(items@.subrange(0, i as int)),
                decreases n - i,
            {
                if i > 0 {
                    out.push(',');
                }
                render_into(&items[i], out);
                proof {
                    let pre = items@.subrange(0, i as int + 1);
                    assert(pre.drop_last() =~= items@.subrange(0, i as int));
                    assert(pre.last() == items@[i as int]);
                    assert(out@ =~= base + spec_arr_text(pre));
                }
                i = i + 1;
            }
            proof {
                assert(items@.subrange(0, n as int) =~= items@);
            }
            out.push(']');
            proof {
                assert(out@ =~= old(out)@ + spec_json_text(*j));
            }
        },
        Json::Obj(fields) => {
            out.push('{');
            let ghost base = out@;
            let n = fields.len();
            let mut i: usize = 0;
            proof {
                assert(fields@.subrange(0, 0) =~= Seq::<(String, Json)>::empty());
            }
            while i < n
                invariant
                    i <= n,
                    n == fields@.len(),
                    out@ == base + spec_obj_text(fields@.subrange(0, i as int)),
                decreases n - i,
            {
                if i > 0 {
                    out.push(',');
                }
                render_string(&fields[i].0, out);
                out.push(':');
                render_into(&fields[i].1, out);
                proof {
                    let pre = fields@.subrange(0, i as int + 1);
                    assert(pre.drop_last() =~= fields@.subrange(0, i as int));
                    assert(pre.last() == fields@[i as int]);
                    assert(spec_field_text(fields@[i as int]) == seq!['"'] + spec_escape(
                        fields@[i as int].0@,
                    ) + seq!['"', ':'] + spec_json_text(fields@[i as int].1));
                    assert(out@ =~= base + spec_obj_text(pre));
                }
                i = i + 1;
            }
            proof {
                assert(fields@.subrange(0, n as int) =~= fields@);
            }
            out.push('}');
            proof {
                assert(out@ =~= old(out)@ + spec_json_text(*j));
            }
        },
    }
}

/// The JSON text of a value, as the characters to put on the wire.
pub fn render_json(j: &Json) -> (out: Vec<char>)
    ensures
        out@ == spec_json_text(*j),
{
    let mut out: Vec<char> = Vec::new();
    render_into(j, &mut out);
    out
}

} // verus!
