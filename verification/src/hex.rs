//! Hexadecimal digits and fixed-width hexadecimal fields, the building
//! blocks of the `traceparent` wire format.

use vstd::prelude::*;

verus! {

/// True of the ASCII code of a hexadecimal digit (either case).
pub open spec fn is_hex_digit(b: u8) -> bool {
    (0x30 <= b && b <= 0x39) || (0x61 <= b && b <= 0x66) || (0x41 <= b && b <= 0x46)
}

/// Numeric value of a hexadecimal digit's ASCII code.
pub open spec fn hex_val(b: u8) -> nat
    recommends
        is_hex_digit(b),
{
    if 0x30 <= b && b <= 0x39 {
        (b - 0x30) as nat
    } else if 0x61 <= b && b <= 0x66 {
        (b - 0x61 + 10) as nat
    } else {
        (b - 0x41 + 10) as nat
    }
}

/// Every byte of the sequence is a hexadecimal digit.
pub open spec fn all_hex(s: Seq<u8>) -> bool {
    forall|i: int| 0 <= i < s.len() ==> is_hex_digit(#[trigger] s[i])
}

/// Value of a big-endian sequence of hexadecimal digits.
pub open spec fn hex_seq_val(s: Seq<u8>) -> nat
    decreases s.len(),
{
    if s.len() == 0 {
        0
    } else {
        hex_seq_val(s.drop_last()) * 16 + hex_val(s.last())
    }
}

/// 16 to the power n.
pub open spec fn pow16(n: nat) -> nat
    decreases n,
{
    if n == 0 {
        1
    } else {
        16 * pow16((n - 1) as nat)
    }
}

/// Lowercase hexadecimal digit (ASCII code) for a value below 16.
pub open spec fn nibble_char(n: nat) -> u8
    recommends
        n < 16,
{
    if n < 10 {
        (n + 0x30) as u8
    } else {
        (n - 10 + 0x61) as u8
    }
}

/// Big-endian, fixed-width, lowercase hexadecimal encoding of x.
pub open spec fn hex_encode(x: nat, w: nat) -> Seq<u8>
    decreases w,
{
    if w == 0 {
        Seq::empty()
    } else {
        hex_encode(x / 16, (w - 1) as nat).push(nibble_char(x % 16))
    }
}

pub proof fn lemma_pow16_positive(n: nat)
    ensures
        pow16(n) >= 1,
    decreases n,
{
    if n > 0 {
        lemma_pow16_positive((n - 1) as nat);
    }
}

pub proof fn lemma_pow16_monotonic(m: nat, n: nat)
    requires
        m <= n,
    ensures
        pow16(m) <= pow16(n),
    decreases n,
{
    if m < n {
        lemma_pow16_monotonic(m, (n - 1) as nat);
        lemma_pow16_positive((n - 1) as nat);
    }
}

pub proof fn lemma_pow16_values()
    ensures
        pow16(2) == 0x100,
        pow16(16) == 0x10000000000000000,
        pow16(32) == 0x100000000000000000000000000000000,
{
    reveal_with_fuel(pow16, 33);
}

pub proof fn lemma_hex_encode_len(x: nat, w: nat)
    ensures
        hex_encode(x, w).len() == w,
    decreases w,
{
    if w > 0 {
        lemma_hex_encode_len(x / 16, (w - 1) as nat);
    }
}

pub proof fn lemma_hex_seq_val_bound(s: Seq<u8>)
    requires
        all_hex(s),
    ensures
        hex_seq_val(s) < pow16(s.len()),
    decreases s.len(),
{
    if s.len() == 0 {
    } else {
        assert(all_hex(s.drop_last()));
        lemma_hex_seq_val_bound(s.drop_last());
        let prefix = hex_seq_val(s.drop_last());
        assert(hex_val(s.last()) <= 15);
        assert(prefix * 16 + 15 < pow16(s.drop_last().len()) * 16) by (nonlinear_arith)
            requires
                prefix < pow16(s.drop_last().len()),
        ;
    }
}

/// Decoding a fixed-width encoding gives the encoded value back.
pub proof fn lemma_hex_round_trip(x: nat, w: nat)
    requires
        x < pow16(w),
    ensures
        all_hex(hex_encode(x, w)),
        hex_seq_val(hex_encode(x, w)) == x,
    decreases w,
{
    if w == 0 {
        assert(x == 0);
    } else {
        let q = x / 16;
        let r = x % 16;
        assert(q < pow16((w - 1) as nat) && r < 16) by (nonlinear_arith)
            requires
                x < pow16(w),
                pow16(w) == 16 * pow16((w - 1) as nat),
                q == x / 16,
                r == x % 16,
        ;
        lemma_hex_round_trip(q, (w - 1) as nat);
        let inner = hex_encode(q, (w - 1) as nat);
        let whole = hex_encode(x, w);
        assert(whole == inner.push(nibble_char(r)));
        assert(whole.drop_last() =~= inner);
        assert(whole.last() == nibble_char(r));
        assert(is_hex_digit(nibble_char(r)) && hex_val(nibble_char(r)) == r);
        assert(hex_seq_val(whole) == hex_seq_val(inner) * 16 + r);
        assert(q * 16 + r == x) by (nonlinear_arith)
            requires
                q == x / 16,
                r == x % 16,
        ;
    }
}

/// Numeric value of one hexadecimal digit, `None` for any other byte.
pub fn hex_digit_value(b: u8) -> (r: Option<u8>)
    ensures
        match r {
            Some(v) => is_hex_digit(b) && v as nat == hex_val(b) && v < 16,
            None => !is_hex_digit(b),
        },
{
    if 0x30 <= b && b <= 0x39 {
        Some(b - 0x30)
    } else if 0x61 <= b && b <= 0x66 {
        Some(b - 0x61 + 10)
    } else if 0x41 <= b && b <= 0x46 {
        Some(b - 0x41 + 10)
    } else {
        None
    }
}

/// Lowercase hexadecimal digit for a value below 16.
pub fn nibble_to_hex(n: u8) -> (r: u8)
    requires
        n < 16,
    ensures
        r == nibble_char(n as nat),
{
    if n < 10 {
        n + 0x30
    } else {
        n - 10 + 0x61
    }
}

/// Value of a big-endian hexadecimal field of at most 32 digits;
/// `None` if any byte is not a hexadecimal digit.
pub fn parse_hex_field(s: &[u8]) -> (r: Option<u128>)
    requires
        s@.len() <= 32,
    ensures
        match r {
            Some(v) => all_hex(s@) && v as nat == hex_seq_val(s@),
            None => !all_hex(s@),
        },
{
    let n = s.len();
    let mut acc: u128 = 0;
    let mut i: usize = 0;
    while i < n
        invariant
            n == s@.len() <= 32,
            0 <= i <= n,
            forall|j: int| 0 <= j < i ==> is_hex_digit(#[trigger] s@[j]),
            acc as nat == hex_seq_val(s@.subrange(0, i as int)),
        decreases n - i,
    {
        match hex_digit_value(s[i]) {
            None => {
                return None;
            },
            Some(v) => {
                proof {
                    let prefix = s@.subrange(0, i as int);
                    lemma_hex_seq_val_bound(prefix);
                    lemma_pow16_monotonic((i + 1) as nat, 32);
                    lemma_pow16_values();
                    assert(acc * 16 + v < pow16((i + 1) as nat)) by (nonlinear_arith)
                        requires
                            (acc as nat) < pow16(i as nat),
                            v < 16,
                            pow16((i + 1) as nat) == 16 * pow16(i as nat),
                    ;
                    let next = s@.subrange(0, i + 1);
                    assert(next.drop_last() =~= prefix);
                    assert(next.last() == s@[i as int]);
                }
                acc = acc * 16 + (v as u128);
            },
        }
        i += 1;
    }
    proof {
        assert(s@.subrange(0, n as int) =~= s@);
    }
    Some(acc)
}

/// Big-endian, fixed-width, lowercase hexadecimal encoding of x.
pub fn encode_hex_field(x: u128, w: usize) -> (r: Vec<u8>)
    requires
        w <= 32,
        (x as nat) < pow16(w as nat),
    ensures
        r@ == hex_encode(x as nat, w as nat),
        r@.len() == w,
    decreases w,
{
    proof {
        lemma_hex_encode_len(x as nat, w as nat);
    }
    if w == 0 {
        let r = Vec::new();
        proof {
            assert(r@ =~= hex_encode(x as nat, 0));
        }
        r
    } else {
        let q = x / 16;
        let rem = (x % 16) as u8;
        proof {
            assert((q as nat) < pow16((w - 1) as nat)) by (nonlinear_arith)
                requires
                    (x as nat) < pow16(w as nat),
                    pow16(w as nat) == 16 * pow16((w - 1) as nat),
                    q == x / 16,
            ;
        }
        let mut r = encode_hex_field(q, w - 1);
        r.push(nibble_to_hex(rem));
        r
    }
}

} // verus!
