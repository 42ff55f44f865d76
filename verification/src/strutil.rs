//! Small verified helpers on strings and integers that the rest of the
//! crate builds on: character-exact string comparison and decimal
//! rendering/parsing of integers.

use vstd::prelude::*;

verus! {

/// The views of a list of key/value pairs.
pub open spec fn pairs_view(q: Seq<(String, String)>) -> Seq<(Seq<char>, Seq<char>)> {
    q.map_values(|p: (String, String)| (p.0@, p.1@))
}

/// The view of an optional string.
pub open spec fn opt_view(o: Option<String>) -> Option<Seq<char>> {
    match o {
        Some(s) => Some(s@),
        None => None,
    }
}

/// Clones an optional borrowed string.
pub fn clone_opt(o: Option<&String>) -> (r: Option<String>)
    ensures
        opt_view(r) == (match o {
            Some(s) => Some(s@),
            None => None::<Seq<char>>,
        }),
{
    match o {
        Some(s) => Some(s.clone()),
        None => None,
    }
}

/// Character-by-character equality of two string slices.
pub fn str_eq(a: &str, b: &str) -> (r: bool)
    ensures
        r == (a@ == b@),
{
    let alen = a.unicode_len();
    let blen = b.unicode_len();
    if alen != blen {
        assert(a@ != b@) by {
            assert(a@.len() != b@.len());
        }
        return false;
    }
    let mut i: usize = 0;
    while i < alen
        invariant
            alen == a@.len(),
            alen == b@.len(),
            i <= alen,
            forall|k: int| 0 <= k < i ==> a@[k] == b@[k],
        decreases alen - i,
    {
        if a.get_char(i) != b.get_char(i) {
            return false;
        }
        i += 1;
    }
    proof {
        assert(a@ =~= b@);
    }
    true
}

/// The decimal digit sequence of `n`, most significant digit first.
pub open spec fn dec_digits(n: nat) -> Seq<char>
    decreases n,
{
    if n < 10 {
        seq![digit_char(n)]
    } else {
        dec_digits(n / 10) + seq![digit_char(n % 10)]
    }
}

/// The character for a single decimal digit.
pub open spec fn digit_char(d: nat) -> char {
    if d == 0 {
        '0'
    } else if d == 1 {
        '1'
    } else if d == 2 {
        '2'
    } else if d == 3 {
        '3'
    } else if d == 4 {
        '4'
    } else if d == 5 {
        '5'
    } else if d == 6 {
        '6'
    } else if d == 7 {
        '7'
    } else if d == 8 {
        '8'
    } else {
        '9'
    }
}

fn digit_str(d: u64) -> (r: &'static str)
    requires
        d < 10,
    ensures
        r@ =~= seq![digit_char(d as nat)],
{
    proof {
        reveal_strlit("0");
        reveal_strlit("1");
        reveal_strlit("2");
        reveal_strlit("3");
        reveal_strlit("4");
        reveal_strlit("5");
        reveal_strlit("6");
        reveal_strlit("7");
        reveal_strlit("8");
        reveal_strlit("9");
    }
    match d {
        0 => "0",
        1 => "1",
        2 => "2",
        3 => "3",
        4 => "4",
        5 => "5",
        6 => "6",
        7 => "7",
        8 => "8",
        _ => "9",
    }
}

/// Renders `n` in decimal, without leading zeroes (except for zero itself).
pub fn u64_to_dec(n: u64) -> (r: String)
    ensures
        r@ == dec_digits(n as nat),
    decreases n,
{
    if n < 10 {
        let mut s = String::new();
        s.append(digit_str(n));
        proof {
            assert(s@ =~= dec_digits(n as nat));
        }
        s
    } else {
        let mut s = u64_to_dec(n / 10);
        s.append(digit_str(n % 10));
        proof {
            assert(s@ =~= dec_digits(n as nat));
        }
        s
    }
}

/// Renders `n` in decimal, with a leading minus sign when negative.
pub fn i64_to_dec(n: i64) -> (r: String)
    ensures
        r@ == int_dec_digits(n as int),
{
    if n >= 0 {
        let r = u64_to_dec(n as u64);
        proof {
            assert(r@ =~= int_dec_digits(n as int));
        }
        r
    } else {
        proof {
            reveal_strlit("-");
        }
        let mut s = String::from_str("-");
        let mag: u64 = if n == i64::MIN {
            9223372036854775808u64
        } else {
            (-n) as u64
        };
        let tail = u64_to_dec(mag);
        s.append(tail.as_str());
        proof {
            assert(s@ =~= int_dec_digits(n as int));
        }
        s
    }
}

/// The decimal rendering of a possibly negative integer.
pub open spec fn int_dec_digits(n: int) -> Seq<char> {
    if n >= 0 {
        dec_digits(n as nat)
    } else {
        seq!['-'] + dec_digits((-n) as nat)
    }
}

/// The numeric value of a sequence of decimal digit characters;
/// meaningful only when `is_digit_seq` holds of the sequence.
pub open spec fn dec_value(s: Seq<char>) -> nat
    decreases s.len(),
{
    if s.len() == 0 {
        0
    } else {
        dec_value(s.drop_last()) * 10 + digit_value(s.last())
    }
}

/// Whether `c` is a decimal digit character.
pub open spec fn is_digit(c: char) -> bool {
    '0' <= c <= '9'
}

/// The value of a single decimal digit character.
pub open spec fn digit_value(c: char) -> nat {
    if is_digit(c) {
        ((c as int) - ('0' as int)) as nat
    } else {
        0
    }
}

/// Whether `s` is a non-empty, all-digit sequence.
pub open spec fn is_digit_seq(s: Seq<char>) -> bool {
    s.len() > 0 && forall|i: int| 0 <= i < s.len() ==> is_digit(#[trigger] s[i])
}

/// Extending a digit sequence on the right can only grow its value.
proof fn lemma_dec_value_prefix(s: Seq<char>, i: int)
    requires
        0 <= i <= s.len(),
    ensures
        dec_value(s.take(i)) <= dec_value(s),
    decreases s.len() - i,
{
    if i < s.len() {
        assert(s.take(i + 1).drop_last() =~= s.take(i));
        assert(s.take(i + 1).last() == s[i]);
        assert(dec_value(s.take(i)) <= dec_value(s.take(i + 1)));
        lemma_dec_value_prefix(s, i + 1);
    } else {
        assert(s.take(i) =~= s);
    }
}

/// Reads `s[start..]` as an unsigned decimal number.  Returns `None` where
/// the tail is empty, holds a non-digit, or does not fit in a `u64`.
pub fn parse_digits(s: &str, start: usize) -> (r: Option<u64>)
    requires
        start <= s@.len(),
    ensures
        match r {
            Some(v) => is_digit_seq(s@.skip(start as int)) && v == dec_value(
                s@.skip(start as int),
            ),
            None => !is_digit_seq(s@.skip(start as int)) || dec_value(s@.skip(start as int))
                > u64::MAX,
        },
{
    let ghost tail = s@.skip(start as int);
    let n = s.unicode_len();
    if start == n {
        return None;
    }
    let mut acc: u64 = 0;
    let mut i: usize = start;
    while i < n
        invariant
            start <= i <= n,
            n == s@.len(),
            tail == s@.skip(start as int),
            is_digit_seq(tail.take(i - start)) || i == start,
            acc == dec_value(tail.take(i - start)),
        decreases n - i,
    {
        let c = s.get_char(i);
        proof {
            assert(tail[i - start] == s@[i as int]);
        }
        if c < '0' || c > '9' {
            proof {
                assert(!is_digit(tail[i - start]));
            }
            return None;
        }
        let d: u64 = (c as u32 as u64) - 48;
        proof {
            assert(d == digit_value(tail[i - start])) by {
                assert(is_digit(tail[i - start]));
            }
        }
        if acc > 0xFFFF_FFFF_FFFF_FFFFu64 / 10 || (acc == 0xFFFF_FFFF_FFFF_FFFFu64 / 10 && d > 5)
        {
            proof {
                assert(tail.take(i - start + 1).drop_last() =~= tail.take(i - start));
                assert(tail.take(i - start + 1).last() == tail[i - start]);
                assert(dec_value(tail.take(i - start + 1)) > u64::MAX);
                lemma_dec_value_prefix(tail, i - start + 1);
            }
            return None;
        }
        proof {
            assert(tail.take(i - start + 1).drop_last() =~= tail.take(i - start));
            assert(tail.take(i - start + 1).last() == tail[i - start]);
        }
        acc = acc * 10 + d;
        i += 1;
        proof {
            assert forall|k: int| 0 <= k < i - start implies is_digit(
                #[trigger] tail.take(i - start)[k],
            ) by {
                if k < i - start - 1 {
                    assert(is_digit(tail.take(i - start - 1)[k]));
                }
            }
        }
    }
    proof {
        assert(tail.take(n - start) =~= tail);
    }
    Some(acc)
}

/// The value of a JSON-style signed integer token: an optional leading
/// minus sign followed by one or more digits, nothing else.
pub open spec fn int_token_value(s: Seq<char>) -> Option<int> {
    if s.len() > 0 && s[0] == '-' {
        if is_digit_seq(s.drop_first()) {
            Some(-(dec_value(s.drop_first()) as int))
        } else {
            None
        }
    } else if is_digit_seq(s) {
        Some(dec_value(s) as int)
    } else {
        None
    }
}

/// Reads a signed integer token with a bound, as a 64-bit value.
/// Returns `None` where the token is malformed or out of `lo ..= hi`.
pub fn parse_int_in(s: &str, lo: i64, hi: i64) -> (r: Option<i64>)
    requires
        lo <= 0 <= hi,
    ensures
        match r {
            Some(v) => int_token_value(s@) == Some(v as int) && lo <= v <= hi,
            None => match int_token_value(s@) {
                Some(w) => w < lo || w > hi,
                None => true,
            },
        },
{
    let n = s.unicode_len();
    if n == 0 {
        return None;
    }
    if s.get_char(0) == '-' {
        proof {
            assert(s@.skip(1) =~= s@.drop_first());
        }
        match parse_digits(s, 1) {
            Some(v) => {
                let bound: u64 = if lo == i64::MIN {
                    9223372036854775808u64
                } else {
                    (-lo) as u64
                };
                if v <= bound {
                    if v == 9223372036854775808u64 {
                        Some(i64::MIN)
                    } else {
                        Some(-(v as i64))
                    }
                } else {
                    None
                }
            },
            None => None,
        }
    } else {
        proof {
            assert(s@.skip(0) =~= s@);
            if is_digit_seq(s@) {
                assert(s@[0] != '-');
            }
        }
        match parse_digits(s, 0) {
            Some(v) => {
                if v <= hi as u64 {
                    Some(v as i64)
                } else {
                    None
                }
            },
            None => None,
        }
    }
}

} // verus!
