use vstd::prelude::*;
use vstd::string::StrSliceExecFns;
use vstd::string::StringExecFns;

verus! {

/// The character that writes one hexadecimal digit, lower case.
pub open spec fn low_hex_char(v: int) -> char {
    if v == 10 {
        'a'
    } else if v == 11 {
        'b'
    } else if v == 12 {
        'c'
    } else if v == 13 {
        'd'
    } else if v == 14 {
        'e'
    } else if v == 15 {
        'f'
    } else {
        crate::decimal::dec_digit_char(v)
    }
}

/// How one character stands inside a JSON string literal: quotes and
/// backslashes get a backslash escape, control characters the uniform
/// `\u00..` form, and every other character stands as itself.
pub open spec fn escaped_char(c: char) -> Seq<char> {
    if c == '"' {
        seq!['\\', '"']
    } else if c == '\\' {
        seq!['\\', '\\']
    } else if (c as int) < 32 {
        seq!['\\', 'u', '0', '0', low_hex_char(c as int / 16), low_hex_char(c as int % 16)]
    } else {
        seq![c]
    }
}

/// The body of the JSON string literal that writes `s`.
pub open spec fn json_escaped(s: Seq<char>) -> Seq<char>
    decreases s.len(),
{
    if s.len() == 0 {
        Seq::empty()
    } else {
        json_escaped(s.drop_last()) + escaped_char(s.last())
    }
}

/// Relies on std's String::push: appends exactly the one character.
#[verifier::external_body]
fn push_char(s: &mut String, c: char)
    ensures
        final(s)@ == old(s)@ + seq![c],
{
    s.push(c)
}

fn low_hex_str(v: u64) -> (r: &'static str)
    requires
        v < 16,
    ensures
        r@ == seq![low_hex_char(v as int)],
{
    if v == 10 {
        proof {
            reveal_strlit("a");
            assert("a"@ =~= seq![low_hex_char(10)]);
        }
        "a"
    } else if v == 11 {
        proof {
            reveal_strlit("b");
            assert("b"@ =~= seq![low_hex_char(11)]);
        }
        "b"
    } else if v == 12 {
        proof {
            reveal_strlit("c");
            assert("c"@ =~= seq![low_hex_char(12)]);
        }
        "c"
    } else if v == 13 {
        proof {
            reveal_strlit("d");
            assert("d"@ =~= seq![low_hex_char(13)]);
        }
        "d"
    } else if v == 14 {
        proof {
            reveal_strlit("e");
            assert("e"@ =~= seq![low_hex_char(14)]);
        }
        "e"
    } else if v == 15 {
        proof {
            reveal_strlit("f");
            assert("f"@ =~= seq![low_hex_char(15)]);
        }
        "f"
    } else {
        let r = crate::decimal::dec_digit_str(v);
        proof {
            assert(seq![crate::decimal::dec_digit_char(v as int)] =~= seq![
                low_hex_char(v as int),
            ]);
        }
        r
    }
}

/// Writes `s` as it stands inside a JSON string literal, quotes and
/// backslashes escaped and control characters in the `\u00..` form.
pub fn escape_json(s: &str) -> (r: String)
    ensures
        r@ == json_escaped(s@),
{
    let len = s.unicode_len();
    let mut out = String::new();
    let mut i: usize = 0;
    while i < len
        invariant
            i <= len,
            len == s@.len(),
            out@ == json_escaped(s@.subrange(0, i as int)),
        decreases len - i,
    {
        let c = s.get_char(i);
        if c == '"' {
            proof {
                reveal_strlit("\\\"");
                assert("\\\""@ =~= seq!['\\', '"']);
            }
            out.append("\\\"");
        } else if c == '\\' {
            proof {
                reveal_strlit("\\\\");
                assert("\\\\"@ =~= seq!['\\', '\\']);
            }
            out.append("\\\\");
        } else {
            let u = c as u32;
            if u < 32 {
                proof {
                    reveal_strlit("\\u00");
                    assert("\\u00"@ =~= seq!['\\', 'u', '0', '0']);
                }
                out.append("\\u00");
                out.append(low_hex_str((u / 16) as u64));
                out.append(low_hex_str((u % 16) as u64));
            } else {
                push_char(&mut out, c);
            }
        }
        proof {
            assert(s@.subrange(0, i + 1 as int).drop_last() =~= s@.subrange(0, i as int));
            assert(s@.subrange(0, i + 1 as int).last() == s@[i as int]);
            assert(out@ =~= json_escaped(s@.subrange(0, i + 1 as int)));
        }
        i += 1;
    }
    proof {
        assert(s@.subrange(0, len as int) =~= s@);
    }
    out
}

} // verus!
