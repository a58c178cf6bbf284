//! Small verified text utilities on byte strings: whitespace
//! tokenizing and decimal number reading.

use vstd::prelude::*;
use crate::compare::{is_ws, is_ws_byte, sub_bytes};

verus! {

/// Position of the first whitespace byte in `s`, or `s.len()` if there
/// is none.
pub open spec fn first_ws(s: Seq<u8>) -> nat
    decreases s.len(),
{
    if s.len() == 0 {
        0
    } else if is_ws(s[0]) {
        0
    } else {
        1 + first_ws(s.drop_first())
    }
}

/// The whitespace-separated tokens of `s`, in order, without empties.
pub open spec fn spec_tokens(s: Seq<u8>) -> Seq<Seq<u8>>
    decreases s.len(),
{
    if s.len() == 0 {
        Seq::empty()
    } else if is_ws(s[0]) {
        spec_tokens(s.drop_first())
    } else {
        let i = first_ws(s) as int;
        if i >= s.len() {
            seq![s]
        } else {
            seq![s.take(i)] + spec_tokens(s.skip(i))
        }
    }
}

/// Whether every byte of `s` is a decimal digit.
pub open spec fn all_digits(s: Seq<u8>) -> bool {
    forall|i: int| 0 <= i < s.len() ==> 48 <= #[trigger] s[i] <= 57
}

/// The value of a string of decimal digits.
pub open spec fn digits_val(s: Seq<u8>) -> int
    decreases s.len(),
{
    if s.len() == 0 {
        0
    } else {
        digits_val(s.drop_last()) * 10 + (s.last() - 48)
    }
}

/// What parsing a decimal `u32` yields: the value of a non-empty digit
/// string that fits, nothing otherwise.
pub open spec fn spec_parse_u32(s: Seq<u8>) -> Option<u32> {
    if s.len() > 0 && all_digits(s) && digits_val(s) <= u32::MAX {
        Some(digits_val(s) as u32)
    } else {
        None
    }
}

/// Appending digits never shrinks the value, and a digit string's value
/// is never negative.
proof fn lemma_digits_val_bounds(s: Seq<u8>, k: int)
    requires
        all_digits(s),
        0 <= k <= s.len(),
    ensures
        digits_val(s.take(k)) >= 0,
        digits_val(s) >= digits_val(s.take(k)),
    decreases s.len() - k,
{
    if k == s.len() {
        assert(s.take(k) =~= s);
        lemma_digits_val_nonneg(s);
    } else {
        lemma_digits_val_bounds(s, k + 1);
        assert(s.take(k + 1).drop_last() =~= s.take(k));
        assert(s.take(k + 1).last() == s[k]);
        lemma_digits_val_nonneg(s.take(k));
    }
}

/// The value of a digit string is never negative.
proof fn lemma_digits_val_nonneg(s: Seq<u8>)
    requires
        all_digits(s),
    ensures
        digits_val(s) >= 0,
    decreases s.len(),
{
    if s.len() > 0 {
        assert(all_digits(s.drop_last()));
        lemma_digits_val_nonneg(s.drop_last());
    }
}

/// Read a decimal `u32` from a token: exactly [`spec_parse_u32`].
pub fn parse_u32_dec(tok: &Vec<u8>) -> (r: Option<u32>)
    ensures
        r == spec_parse_u32(tok@),
{
    if tok.len() == 0 {
        return None;
    }
    let mut v: u32 = 0;
    let mut i: usize = 0;
    while i < tok.len()
        invariant
            i <= tok@.len(),
            all_digits(tok@.take(i as int)),
            v == digits_val(tok@.take(i as int)),
        decreases tok@.len() - i,
    {
        let b = tok[i];
        if b < 48 || b > 57 {
            return None;
        }
        let d = (b - 48) as u32;
        proof {
            assert(tok@.take(i + 1).drop_last() =~= tok@.take(i as int));
            assert(tok@.take(i + 1).last() == tok@[i as int]);
        }
        if v > (u32::MAX - d) / 10 {
            proof {
                assert((v * 10 + d) > u32::MAX) by {
                    assert(v >= (u32::MAX - d) / 10 + 1);
                    assert(((u32::MAX - d) / 10 + 1) * 10 == ((u32::MAX - d) / 10) * 10 + 10)
                        by (nonlinear_arith);
                    assert(((u32::MAX - d) / 10) * 10 + (u32::MAX - d) % 10 == u32::MAX - d)
                        by (nonlinear_arith);
                    assert((u32::MAX - d) % 10 < 10) by (nonlinear_arith)
                        requires
                            d <= 9,
                    ;
                    assert(v * 10 >= ((u32::MAX - d) / 10 + 1) * 10) by (nonlinear_arith)
                        requires
                            v >= (u32::MAX - d) / 10 + 1,
                    ;
                }
                if all_digits(tok@) {
                    lemma_digits_val_bounds(tok@, i + 1);
                }
            }
            return None;
        }
        v = v * 10 + d;
        i = i + 1;
    }
    proof {
        assert(tok@.take(tok@.len() as int) =~= tok@);
    }
    Some(v)
}

/// The whitespace-separated tokens of a line: exactly [`spec_tokens`].
pub fn tokens_exec(l: &Vec<u8>) -> (r: Vec<Vec<u8>>)
    ensures
        r.deep_view() == spec_tokens(l@),
{
    let mut acc: Vec<Vec<u8>> = Vec::new();
    let mut p: usize = 0;
    proof {
        assert(l@.skip(0) =~= l@);
    }
    while p < l.len()
        invariant
            p <= l@.len(),
            spec_tokens(l@) == acc.deep_view() + spec_tokens(l@.skip(p as int)),
        decreases l@.len() - p,
    {
        if is_ws_byte(l[p]) {
            proof {
                let rest = l@.skip(p as int);
                assert(rest[0] == l@[p as int]);
                assert(rest.drop_first() =~= l@.skip(p + 1));
            }
            p = p + 1;
        } else {
            let mut j: usize = p + 1;
            while j < l.len() && !is_ws_byte(l[j])
                invariant
                    p < j <= l@.len(),
                    forall|m: int| p <= m < j ==> !is_ws(#[trigger] l@[m]),
                decreases l@.len() - j,
            {
                j = j + 1;
            }
            let tok = sub_bytes(l, p, j);
            proof {
                let rest = l@.skip(p as int);
                assert(forall|m: int| 0 <= m < rest.len() ==> rest[m] == l@[p + m]);
                lemma_first_ws_at(rest, j - p);
                assert(rest.take(j - p) =~= l@.subrange(p as int, j as int));
                assert(rest.skip(j - p) =~= l@.skip(j as int));
                if j == l@.len() {
                    assert(rest =~= l@.subrange(p as int, j as int));
                }
            }
            let ghost pre = acc.deep_view();
            let ghost rest = l@.skip(p as int);
            acc.push(tok);
            proof {
                assert(acc.deep_view() =~~= pre.push(tok@));
                if j < l@.len() {
                    assert(pre.push(tok@) + spec_tokens(l@.skip(j as int)) =~= pre + spec_tokens(
                        rest,
                    ));
                } else {
                    assert(spec_tokens(l@.skip(j as int)) =~= Seq::<Seq<u8>>::empty());
                    assert(pre.push(tok@) + spec_tokens(l@.skip(j as int)) =~= pre + spec_tokens(
                        rest,
                    ));
                }
            }
            p = j;
        }
    }
    proof {
        assert(l@.skip(p as int) =~= Seq::<u8>::empty());
        assert(spec_tokens(Seq::<u8>::empty()) =~= Seq::<Seq<u8>>::empty());
        assert(acc.deep_view() =~= acc.deep_view() + Seq::<Seq<u8>>::empty());
    }
    acc
}

/// `first_ws` answers `k` when the first `k` bytes are not whitespace
/// and byte `k`, if present, is.
proof fn lemma_first_ws_at(s: Seq<u8>, k: int)
    requires
        0 <= k <= s.len(),
        forall|m: int| 0 <= m < k ==> !is_ws(#[trigger] s[m]),
        k < s.len() ==> is_ws(s[k]),
    ensures
        first_ws(s) == k,
    decreases s.len(),
{
    if s.len() > 0 && !is_ws(s[0]) {
        lemma_first_ws_at(s.drop_first(), k - 1);
    }
}


} // verus!
