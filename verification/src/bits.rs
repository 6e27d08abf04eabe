use vstd::arithmetic::power2::{
    lemma2_to64, lemma2_to64_rest, lemma_pow2_adds, lemma_pow2_pos, lemma_pow2_strictly_increases,
    lemma_pow2_unfold, pow2,
};
use vstd::prelude::*;

verus! {

/// The unsigned value whose `bits`-bit pattern is the two's complement
/// representation of `v`.
pub open spec fn reinterpret_unsigned(v: int, bits: nat) -> int {
    if v < 0 {
        v + pow2(bits)
    } else {
        v
    }
}

/// The signed value whose `bits`-bit two's complement representation is the
/// pattern of the unsigned value `v`.
pub open spec fn reinterpret_signed(v: int, bits: nat) -> int {
    if v >= pow2((bits - 1) as nat) {
        v - pow2(bits)
    } else {
        v
    }
}

/// The binary digit of the `width`-bit value `u` at position `i`, counting
/// from the most significant bit.
pub open spec fn bit_char(u: nat, width: nat, i: int) -> char {
    if (u / pow2((width - 1 - i) as nat)) % 2 == 1 {
        '1'
    } else {
        '0'
    }
}

/// The binary digits of `u`, zero-padded to `width`, most significant first.
pub open spec fn bit_chars(u: nat, width: nat) -> Seq<char> {
    Seq::new(width, |i: int| bit_char(u, width, i))
}

/// `digits` with one space inserted after every `every` digits, counting
/// from the front; digits beyond the last full group stay attached to that
/// group, so the final group holds up to `2 * every - 1` digits.
pub open spec fn grouped_chars(digits: Seq<char>, every: nat) -> Seq<char>
    decreases digits.len(),
{
    if every == 0 || digits.len() < 2 * every {
        digits
    } else {
        digits.take(every as int) + seq![' '] + grouped_chars(digits.skip(every as int), every)
    }
}

/// The number of exponent digits in the representation of a floating point
/// type of the given width.
pub open spec fn exponent_len(width: nat) -> int {
    if width == 32 {
        8
    } else {
        11
    }
}

/// `digits` split into a sign digit, `exp_len` exponent digits and the
/// remaining mantissa digits, the three fields separated by single spaces.
pub open spec fn float_fields(digits: Seq<char>, exp_len: int) -> Seq<char> {
    digits.take(1) + seq![' '] + digits.subrange(1, 1 + exp_len) + seq![' '] + digits.skip(
        1 + exp_len,
    )
}

/// Powers of two at the widths of the machine integer types.
pub proof fn lemma_pow2_named_widths()
    ensures
        pow2(7) == 0x80,
        pow2(8) == 0x100,
        pow2(15) == 0x8000,
        pow2(16) == 0x10000,
        pow2(31) == 0x80000000,
        pow2(32) == 0x100000000,
        pow2(63) == 0x8000000000000000,
        pow2(64) == 0x10000000000000000,
        pow2(127) == 0x80000000000000000000000000000000,
        pow2(128) == 0x100000000000000000000000000000000,
{
    lemma2_to64();
    lemma2_to64_rest();
    lemma_pow2_adds(64, 63);
    lemma_pow2_adds(64, 64);
}

/// `pow2(e)`, computed for the exponents a 128-bit value can hold.
fn pow2_exec(e: usize) -> (r: u128)
    requires
        e < 128,
    ensures
        r == pow2(e as nat),
{
    let mut r: u128 = 1;
    let mut k: usize = 0;
    proof {
        lemma2_to64();
    }
    while k < e
        invariant
            k <= e,
            e < 128,
            r == pow2(k as nat),
        decreases e - k,
    {
        proof {
            lemma_pow2_unfold((k + 1) as nat);
            lemma_pow2_strictly_increases((k + 1) as nat, 128);
            lemma_pow2_named_widths();
        }
        r = r * 2;
        k = k + 1;
    }
    r
}

/// The binary representation of `value`, zero-padded to `width` digits
/// (most significant first), with one space inserted after every `every`
/// digits counted from the most significant end; digits beyond the last
/// full group stay attached to that group.
pub fn grouped_bit_string(value: u128, width: usize, every: usize) -> (s: String)
    requires
        1 <= every,
        1 <= width <= 128,
    ensures
        s@ == grouped_chars(bit_chars(value as nat, width as nat), every as nat),
{
    let ghost digits = bit_chars(value as nat, width as nat);
    let mut s = String::new();
    let mut j: usize = 0;
    let mut p: u128 = pow2_exec(width - 1);
    proof {
        assert(digits.skip(0) =~= digits);
    }
    while width - j >= every && (width - j) - every >= every
        invariant
            1 <= every,
            j <= width,
            width <= 128,
            digits == bit_chars(value as nat, width as nat),
            grouped_chars(digits, every as nat) == s@ + grouped_chars(
                digits.skip(j as int),
                every as nat,
            ),
            j < width ==> p == pow2((width - 1 - j) as nat),
        decreases width - j,
    {
        let ghost s0 = s@;
        let ghost j0 = j as int;
        let group_end = j + every;
        proof {
            assert(digits.subrange(j0, j0) =~= Seq::<char>::empty());
            assert(s@ =~= s0 + digits.subrange(j0, j0));
        }
        while j < group_end
            invariant
                0 <= j0 <= j <= group_end,
                group_end <= width,
                width <= 128,
                group_end == j0 + every,
                digits == bit_chars(value as nat, width as nat),
                s@ == s0 + digits.subrange(j0, j as int),
                j < width ==> p == pow2((width - 1 - j) as nat),
            decreases group_end - j,
        {
            proof {
                lemma_pow2_pos((width - 1 - j) as nat);
                assert(digits[j as int] == bit_char(value as nat, width as nat, j as int));
            }
            if (value / p) % 2 == 1 {
                s.append("1");
                proof {
                    reveal_strlit("1");
                    assert(s@ =~= s0 + digits.subrange(j0, j + 1));
                }
            } else {
                s.append("0");
                proof {
                    reveal_strlit("0");
                    assert(s@ =~= s0 + digits.subrange(j0, j + 1));
                }
            }
            proof {
                if j + 1 < width {
                    lemma_pow2_unfold((width - 1 - j) as nat);
                }
            }
            p = p / 2;
            j = j + 1;
        }
        s.append(" ");
        proof {
            reveal_strlit(" ");
            let rest = digits.skip(j0);
            assert(rest.len() == width - j0 >= 2 * every);
            assert(rest.take(every as int) =~= digits.subrange(j0, j0 + every));
            assert(rest.skip(every as int) =~= digits.skip(j0 + every));
            assert(" "@ =~= seq![' ']);
            assert(s@ =~= s0 + rest.take(every as int) + seq![' ']);
            assert(grouped_chars(rest, every as nat) == rest.take(every as int) + seq![' ']
                + grouped_chars(digits.skip(j as int), every as nat));
            assert(s0 + (rest.take(every as int) + seq![' '] + grouped_chars(
                digits.skip(j as int),
                every as nat,
            )) =~= s@ + grouped_chars(digits.skip(j as int), every as nat));
        }
    }
    proof {
        assert(grouped_chars(digits.skip(j as int), every as nat) == digits.skip(j as int));
    }
    while j < width
        invariant
            1 <= every,
            j <= width,
            width <= 128,
            digits == bit_chars(value as nat, width as nat),
            grouped_chars(digits, every as nat) == s@ + digits.skip(j as int),
            j < width ==> p == pow2((width - 1 - j) as nat),
        decreases width - j,
    {
        let ghost s_before = s@;
        proof {
            lemma_pow2_pos((width - 1 - j) as nat);
            assert(digits[j as int] == bit_char(value as nat, width as nat, j as int));
            assert(digits.skip(j as int) =~= seq![digits[j as int]] + digits.skip(j + 1));
        }
        if (value / p) % 2 == 1 {
            s.append("1");
            proof {
                reveal_strlit("1");
                assert(s@ + digits.skip(j + 1) =~= s_before + digits.skip(j as int));
            }
        } else {
            s.append("0");
            proof {
                reveal_strlit("0");
                assert(s@ + digits.skip(j + 1) =~= s_before + digits.skip(j as int));
            }
        }
        proof {
            if j + 1 < width {
                lemma_pow2_unfold((width - 1 - j) as nat);
            }
        }
        p = p / 2;
        j = j + 1;
    }
    proof {
        assert(digits.skip(width as int) =~= Seq::<char>::empty());
        assert(s@ + Seq::<char>::empty() =~= s@);
    }
    s
}

/// The raw bit pattern `bits` of a floating point value of the given
/// width (32 or 64), rendered as binary digits with single spaces after
/// the sign digit and after the exponent digits, so that the sign,
/// exponent and mantissa fields are visually separated.
pub fn float_bit_string(bits: u64, width: usize) -> (s: String)
    requires
        width == 32 || width == 64,
    ensures
        s@ == float_fields(bit_chars(bits as nat, width as nat), exponent_len(width as nat)),
{
    let ghost digits = bit_chars(bits as nat, width as nat);
    let exp_end: usize = if width == 32 {
        9
    } else {
        12
    };
    let value: u128 = bits as u128;
    let mut s = String::new();
    let mut j: usize = 0;
    let mut p: u128 = pow2_exec(width - 1);
    while j < width
        invariant
            width == 32 || width == 64,
            exp_end == exponent_len(width as nat) + 1,
            j <= width,
            value == bits,
            digits == bit_chars(bits as nat, width as nat),
            s@ == (if j <= 1 {
                digits.take(j as int)
            } else if j <= exp_end {
                digits.take(1) + seq![' '] + digits.subrange(1, j as int)
            } else {
                digits.take(1) + seq![' '] + digits.subrange(1, exp_end as int) + seq![' ']
                    + digits.subrange(exp_end as int, j as int)
            }),
            j < width ==> p == pow2((width - 1 - j) as nat),
        decreases width - j,
    {
        proof {
            lemma_pow2_pos((width - 1 - j) as nat);
            assert(digits[j as int] == bit_char(bits as nat, width as nat, j as int));
        }
        if j == 1 || j == exp_end {
            s.append(" ");
        }
        if (value / p) % 2 == 1 {
            s.append("1");
            proof {
                reveal_strlit("1");
            }
        } else {
            s.append("0");
            proof {
                reveal_strlit("0");
            }
        }
        proof {
            reveal_strlit(" ");
            if j < 1 {
                assert(s@ =~= digits.take(j + 1));
            } else if j < exp_end {
                assert(s@ =~= digits.take(1) + seq![' '] + digits.subrange(1, j + 1));
            } else if j == exp_end {
                assert(s@ =~= digits.take(1) + seq![' '] + digits.subrange(1, exp_end as int)
                    + seq![' '] + digits.subrange(exp_end as int, j + 1));
            } else {
                assert(s@ =~= digits.take(1) + seq![' '] + digits.subrange(1, exp_end as int)
                    + seq![' '] + digits.subrange(exp_end as int, j + 1));
            }
            if j + 1 < width {
                lemma_pow2_unfold((width - 1 - j) as nat);
            }
        }
        p = p / 2;
        j = j + 1;
    }
    proof {
        assert(digits.subrange(exp_end as int, width as int) =~= digits.skip(exp_end as int));
        assert(s@ =~= float_fields(digits, exponent_len(width as nat)));
    }
    s
}

} // verus!
