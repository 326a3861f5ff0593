use vstd::prelude::*;
use vstd::string::StrSliceExecFns;

verus! {

/// Value of one hexadecimal digit, or -1 for a character that is none.
pub open spec fn hex_digit_value(c: char) -> int {
    if 48 <= c as int && c as int <= 57 {
        c as int - 48
    } else if 97 <= c as int && c as int <= 102 {
        c as int - 87
    } else if 65 <= c as int && c as int <= 70 {
        c as int - 55
    } else {
        -1
    }
}

pub open spec fn is_hex_digit(c: char) -> bool {
    hex_digit_value(c) >= 0
}

pub open spec fn all_hex_digits(s: Seq<char>) -> bool {
    forall|i: int| 0 <= i < s.len() ==> is_hex_digit(#[trigger] s[i])
}

/// The number written by a sequence of hexadecimal digits, most significant
/// first. A character that is no hexadecimal digit counts as zero; callers
/// guard with `all_hex_digits`.
pub open spec fn hex_value(s: Seq<char>) -> nat
    decreases s.len(),
{
    if s.len() == 0 {
        0
    } else {
        hex_value(s.drop_last()) * 16 + (if is_hex_digit(s.last()) {
            hex_digit_value(s.last()) as nat
        } else {
            0
        })
    }
}

/// The balance a provider reports: a string of the form `0x` followed by at
/// least one hexadecimal digit. Anything else carries no value.
pub open spec fn parsed_wei(h: Seq<char>) -> Option<nat> {
    if h.len() > 2 && h[0] == '0' && h[1] == 'x' && all_hex_digits(h.skip(2)) {
        Some(hex_value(h.skip(2)))
    } else {
        None
    }
}

/// Extending a digit string can only grow the number it writes.
proof fn lemma_hex_value_prefix(s: Seq<char>, k: int)
    requires
        0 <= k <= s.len(),
    ensures
        hex_value(s) >= hex_value(s.subrange(0, k)),
    decreases s.len() - k,
{
    if k == s.len() {
        assert(s.subrange(0, k) =~= s);
    } else {
        let t = s.subrange(0, s.len() - 1);
        assert(t =~= s.drop_last());
        lemma_hex_value_prefix(t, k);
        assert(t.subrange(0, k) =~= s.subrange(0, k));
        assert(hex_value(s) >= hex_value(s.drop_last()));
    }
}

fn hex_digit(c: char) -> (r: Option<u64>)
    ensures
        match r {
            Some(v) => hex_digit_value(c) == v as int && v < 16,
            None => !is_hex_digit(c),
        },
{
    let u = c as u32;
    if 48 <= u && u <= 57 {
        Some((u - 48) as u64)
    } else if 97 <= u && u <= 102 {
        Some((u - 87) as u64)
    } else if 65 <= u && u <= 70 {
        Some((u - 55) as u64)
    } else {
        None
    }
}

/// Reads a provider balance string: a `0x` prefix followed by one or more
/// hexadecimal digits, upper or lower case. Returns the value in wei, or
/// `None` when the string has another shape or the value does not fit in
/// sixty-four bits.
pub fn parse_hex_wei(h: &str) -> (r: Option<u64>)
    ensures
        (match parsed_wei(h@) {
            Some(n) => if n <= u64::MAX { r == Some(n as u64) } else { r is None },
            None => r is None,
        }),
{
    let len = h.unicode_len();
    if len <= 2 {
        return None;
    }
    if h.get_char(0) != '0' || h.get_char(1) != 'x' {
        return None;
    }
    let mut acc: u64 = 0;
    let mut i: usize = 2;
    while i < len
        invariant
            2 <= i <= len,
            len == h@.len(),
            h@[0] == '0',
            h@[1] == 'x',
            all_hex_digits(h@.subrange(2, i as int)),
            acc as nat == hex_value(h@.subrange(2, i as int)),
        decreases len - i,
    {
        let c = h.get_char(i);
        proof {
            assert(h@.skip(2)[i - 2] == h@[i as int]);
        }
        match hex_digit(c) {
            None => {
                return None;
            },
            Some(d) => {
                proof {
                    assert(h@.subrange(2, i + 1 as int).drop_last() =~= h@.subrange(
                        2,
                        i as int,
                    ));
                    assert(h@.subrange(2, i + 1 as int).last() == c);
                }
                if acc >= 0x1000000000000000 {
                    proof {
                        let ext = h@.subrange(2, i + 1 as int);
                        assert(hex_value(ext) >= acc as nat * 16);
                        assert(acc as nat * 16 > u64::MAX);
                        assert(h@.skip(2).subrange(0, i - 1) =~= ext);
                        lemma_hex_value_prefix(h@.skip(2), i - 1);
                    }
                    return None;
                }
                acc = acc * 16 + d;
            },
        }
        i += 1;
    }
    proof {
        assert(h@.subrange(2, len as int) =~= h@.skip(2));
    }
    Some(acc)
}

} // verus!
