//! Integer readings of number tokens.
//!
//! The export stores counters and positions as JSON numbers; a field of
//! integer type accepts exactly the tokens that denote an integer fitting
//! `i64`, and rejects fractions, exponents and out-of-range values.

use vstd::prelude::*;

use crate::text::is_digit;

verus! {

broadcast use vstd::utf8::char_u32_cast;

/// Every character is a decimal digit.
pub open spec fn all_digits(t: Seq<char>) -> bool {
    forall|i: int| 0 <= i < t.len() ==> is_digit(#[trigger] t[i])
}

/// The value of a digit string, most significant digit first.
pub open spec fn digits_val(t: Seq<char>) -> int
    decreases t.len(),
{
    if t.len() == 0 {
        0
    } else {
        digits_val(t.drop_last()) * 10 + (t.last() as u32 - 48)
    }
}

/// Ten to the `n`.
pub open spec fn pow10(n: nat) -> int
    decreases n,
{
    if n == 0 {
        1
    } else {
        10 * pow10((n - 1) as nat)
    }
}

/// The integer denoted by a token of the shape `-?[0-9]+`, if it has it.
pub open spec fn int_token_val(t: Seq<char>) -> Option<int> {
    if t.len() >= 2 && t[0] == '-' && all_digits(t.skip(1)) {
        Some(-digits_val(t.skip(1)))
    } else if t.len() >= 1 && all_digits(t) {
        Some(digits_val(t))
    } else {
        None
    }
}

/// The `i64` denoted by a token, if it denotes an integer in range.
pub open spec fn int64_of(t: Seq<char>) -> Option<i64> {
    match int_token_val(t) {
        Some(n) => if i64::MIN <= n <= i64::MAX {
            Some(n as i64)
        } else {
            None
        },
        None => None,
    }
}

/// A digit string's value is below ten to its length.
proof fn lemma_digits_upper(t: Seq<char>)
    requires
        all_digits(t),
    ensures
        0 <= digits_val(t) < pow10(t.len()),
    decreases t.len(),
{
    if t.len() > 0 {
        assert(all_digits(t.drop_last())) by {
            assert(forall|i: int|
                0 <= i < t.len() - 1 ==> #[trigger] t.drop_last()[i] == t[i]);
        }
        lemma_digits_upper(t.drop_last());
        assert(is_digit(t.last()));
    }
}

/// Without a leading zero, a digit string's value reaches ten to one less
/// than its length.
proof fn lemma_digits_lower(t: Seq<char>)
    requires
        all_digits(t),
        t.len() > 0,
        t[0] != '0',
    ensures
        digits_val(t) >= pow10((t.len() - 1) as nat),
    decreases t.len(),
{
    assert('0' as u32 == 48);
    if t.len() == 1 {
        assert(is_digit(t[0]));
        if t[0] as u32 == 48 {
            vstd::utf8::char_u32_cast(t[0], t[0] as u32);
            vstd::utf8::char_u32_cast('0', '0' as u32);
            assert(t[0] == '0');
        }
        assert(t[0] as u32 != 48);
        assert(t.drop_last() =~= Seq::<char>::empty());
        assert(digits_val(Seq::<char>::empty()) == 0);
        assert(t.last() == t[0]);
        assert(pow10(0) == 1);
    } else {
        assert(all_digits(t.drop_last())) by {
            assert(forall|i: int|
                0 <= i < t.len() - 1 ==> #[trigger] t.drop_last()[i] == t[i]);
        }
        lemma_digits_lower(t.drop_last());
        assert(is_digit(t.last()));
        assert(pow10((t.len() - 1) as nat) == 10 * pow10((t.len() - 2) as nat));
    }
}

/// A leading zero does not change the value.
proof fn lemma_cons_zero(r: Seq<char>)
    ensures
        digits_val(seq!['0'] + r) == digits_val(r),
    decreases r.len(),
{
    assert('0' as u32 == 48);
    if r.len() == 0 {
        assert((seq!['0'] + r).drop_last() =~= Seq::<char>::empty());
        assert(digits_val(Seq::<char>::empty()) == 0);
        assert((seq!['0'] + r).last() == '0');
    } else {
        assert((seq!['0'] + r).drop_last() =~= seq!['0'] + r.drop_last());
        lemma_cons_zero(r.drop_last());
        assert(digits_val((seq!['0'] + r).drop_last()) == digits_val(r.drop_last()));
        assert((seq!['0'] + r).last() == r.last());
        assert(r.drop_last().len() < r.len());
    }
}

/// Reads the digit run `t[from..]` as a `u64`; `None` when it cannot fit
/// because it is too long even after its leading zeros.
fn digits_to_u64(t: &Vec<char>, from: usize) -> (r: Option<u64>)
    requires
        from <= t.len(),
        all_digits(t@.skip(from as int)),
    ensures
        match r {
            Some(n) => n as int == digits_val(t@.skip(from as int)) && (n as int) < pow10(20),
            None => digits_val(t@.skip(from as int)) >= pow10(19),
        },
{
    let mut z = from;
    while z < t.len() && t[z] == '0'
        invariant
            from <= z <= t.len(),
            all_digits(t@.skip(from as int)),
            digits_val(t@.skip(from as int)) == digits_val(t@.skip(z as int)),
        decreases t.len() - z,
    {
        proof {
            assert(t@.skip(z as int) =~= seq!['0'] + t@.skip(z as int + 1));
            lemma_cons_zero(t@.skip(z as int + 1));
        }
        z = z + 1;
    }
    proof {
        assert(all_digits(t@.skip(z as int))) by {
            assert(forall|i: int|
                0 <= i < t@.skip(z as int).len() ==> #[trigger] t@.skip(z as int)[i] == t@.skip(
                    from as int,
                )[i + z - from]);
        }
    }
    if t.len() - z > 19 {
        proof {
            assert(t@.skip(z as int)[0] != '0');
            lemma_digits_lower(t@.skip(z as int));
            assert(t@.skip(z as int).len() - 1 >= 19);
            assert(pow10((t@.skip(z as int).len() - 1) as nat) >= pow10(19)) by {
                lemma_pow10_mono(19, (t@.skip(z as int).len() - 1) as nat);
            }
        }
        return None;
    }
    let mut acc: u64 = 0;
    let mut k = z;
    proof {
        assert(t@.skip(z as int).subrange(0, 0) =~= Seq::<char>::empty());
        lemma_pow10_consts();
    }
    while k < t.len()
        invariant
            z <= k <= t.len(),
            t.len() - z <= 19,
            all_digits(t@.skip(z as int)),
            digits_val(t@.skip(from as int)) == digits_val(t@.skip(z as int)),
            acc as int == digits_val(t@.skip(z as int).subrange(0, k - z)),
            (acc as int) < pow10((k - z) as nat),
            pow10(19) == 10000000000000000000,
        decreases t.len() - k,
    {
        let ghost pre = t@.skip(z as int).subrange(0, k - z);
        proof {
            assert(is_digit(t@.skip(z as int)[k - z]));
            assert(t@[k as int] == t@.skip(z as int)[k - z]);
            assert(t@.skip(z as int).subrange(0, k - z + 1).drop_last() =~= pre);
            assert(t@.skip(z as int).subrange(0, k - z + 1).last() == t@[k as int]);
            assert(pow10(((k - z) + 1) as nat) == 10 * pow10((k - z) as nat));
            assert(pow10((k - z) as nat) <= pow10(18)) by {
                lemma_pow10_mono((k - z) as nat, 18);
            }
            lemma_pow10_consts();
        }
        let d: u64 = (t[k] as u32 - 48) as u64;
        acc = acc * 10 + d;
        k = k + 1;
    }
    proof {
        assert(t@.skip(z as int).subrange(0, k - z) =~= t@.skip(z as int));
        assert(pow10((k - z) as nat) <= pow10(19)) by {
            lemma_pow10_mono((k - z) as nat, 19);
        }
        lemma_pow10_mono(19, 20);
    }
    Some(acc)
}

/// The powers of ten that the range checks use.
proof fn lemma_pow10_consts()
    ensures
        pow10(18) == 1000000000000000000,
        pow10(19) == 10000000000000000000,
        pow10(20) == 100000000000000000000,
{
    reveal_with_fuel(pow10, 21);
}

/// `pow10` grows with the exponent.
proof fn lemma_pow10_mono(a: nat, b: nat)
    requires
        a <= b,
    ensures
        pow10(a) <= pow10(b),
        pow10(a) >= 1,
    decreases b,
{
    if b > 0 {
        if a == b {
            lemma_pow10_mono((a - 1) as nat, (b - 1) as nat);
        } else {
            lemma_pow10_mono(a, (b - 1) as nat);
        }
    }
}

/// Reads a number token as an `i64`, landing on [`int64_of`].
pub fn i64_of_token(t: &Vec<char>) -> (r: Option<i64>)
    ensures
        r == int64_of(t@),
{
    let neg = t.len() >= 2 && t[0] == '-';
    let start: usize = if neg {
        1
    } else {
        0
    };
    if t.len() == 0 {
        return None;
    }
    let mut k = start;
    while k < t.len()
        invariant
            start <= k <= t.len(),
            start <= t.len(),
            neg == (t@.len() >= 2 && t@[0] == '-'),
            neg ==> start == 1,
            !neg ==> start == 0,
            forall|i: int| start <= i < k ==> is_digit(#[trigger] t@[i]),
        decreases t.len() - k,
    {
        if !(48 <= t[k] as u32 && t[k] as u32 <= 57) {
            proof {
                assert(!is_digit(t@[k as int]));
                if neg {
                    let ki: int = k as int;
                    assert(0 <= ki - 1 < t@.skip(1).len());
                    assert(t@.skip(1)[ki - 1] == t@[ki - 1 + 1]);
                    assert(!is_digit(t@.skip(1)[ki - 1]));
                    assert(!all_digits(t@.skip(1)));
                    assert(!is_digit('-')) by {
                        assert('-' as u32 == 45);
                    }
                    assert(!all_digits(t@));
                } else {
                    assert(!all_digits(t@));
                    if t.len() >= 2 && t@[0] == '-' {
                        assert(!is_digit('-')) by {
                            assert('-' as u32 == 45);
                        }
                    }
                }
            }
            return None;
        }
        k = k + 1;
    }
    proof {
        if neg {
            assert(all_digits(t@.skip(1))) by {
                assert(forall|i: int|
                    0 <= i < t@.skip(1).len() ==> #[trigger] t@.skip(1)[i] == t@[i + 1]);
            }
        } else {
            if t.len() >= 2 && t@[0] == '-' {
                assert(is_digit(t@[0]));
                assert(false) by {
                    assert('-' as u32 == 45);
                }
            }
            assert(all_digits(t@));
            assert(t@.skip(0) =~= t@);
        }
    }
    match digits_to_u64(t, start) {
        None => {
            proof {
                lemma_pow10_consts();
            }
            None
        },
        Some(n) => {
            if neg {
                if n <= 9223372036854775807 {
                    Some(-(n as i64))
                } else if n == 9223372036854775808 {
                    Some(i64::MIN)
                } else {
                    proof {
                        lemma_pow10_consts();
                    }
                    None
                }
            } else {
                if n <= 9223372036854775807 {
                    Some(n as i64)
                } else {
                    None
                }
            }
        },
    }
}

} // verus!
