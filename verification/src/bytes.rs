//! Little-endian numbers.

use vstd::prelude::*;

verus! {

/// The eight little-endian bytes of `n`.
pub open spec fn le_bytes(n: int) -> Seq<u8> {
    seq![
        (n % 0x100) as u8,
        (n / 0x100 % 0x100) as u8,
        (n / 0x1_0000 % 0x100) as u8,
        (n / 0x100_0000 % 0x100) as u8,
        (n / 0x1_0000_0000 % 0x100) as u8,
        (n / 0x100_0000_0000 % 0x100) as u8,
        (n / 0x1_0000_0000_0000 % 0x100) as u8,
        (n / 0x100_0000_0000_0000 % 0x100) as u8,
    ]
}

/// The number whose eight little-endian bytes start at `at`.
pub open spec fn le_number(bytes: Seq<u8>, at: int) -> int {
    bytes[at] + 0x100 * bytes[at + 1] + 0x1_0000 * bytes[at + 2] + 0x100_0000 * bytes[at + 3]
        + 0x1_0000_0000 * bytes[at + 4] + 0x100_0000_0000 * bytes[at + 5] + 0x1_0000_0000_0000
        * bytes[at + 6] + 0x100_0000_0000_0000 * bytes[at + 7]
}

/// Reads the number whose eight little-endian bytes start at `at`.
pub fn read_number(bytes: &[u8], at: usize) -> (number: u64)
    requires
        at + 8 <= bytes@.len(),
    ensures
        number == le_number(bytes@, at as int),
{
    let low: u64 = bytes[at] as u64 + 0x100 * bytes[at + 1] as u64 + 0x1_0000 * bytes[at
        + 2] as u64 + 0x100_0000 * bytes[at + 3] as u64;
    let high: u64 = bytes[at + 4] as u64 + 0x100 * bytes[at + 5] as u64 + 0x1_0000 * bytes[at
        + 6] as u64 + 0x100_0000 * bytes[at + 7] as u64;
    low + 0x1_0000_0000 * high
}

/// A number is what its bytes say.
pub proof fn lemma_number_of_bytes(n: int)
    requires
        0 <= n < 0x1_0000_0000_0000_0000,
    ensures
        le_bytes(n).len() == 8,
        le_number(le_bytes(n), 0) == n,
{
    let q1 = n / 0x100;
    let q2 = q1 / 0x100;
    let q3 = q2 / 0x100;
    let q4 = q3 / 0x100;
    let q5 = q4 / 0x100;
    let q6 = q5 / 0x100;
    let q7 = q6 / 0x100;
    vstd::arithmetic::div_mod::lemma_div_denominator(n, 0x100, 0x100);
    vstd::arithmetic::div_mod::lemma_div_denominator(n, 0x1_0000, 0x100);
    vstd::arithmetic::div_mod::lemma_div_denominator(n, 0x100_0000, 0x100);
    vstd::arithmetic::div_mod::lemma_div_denominator(n, 0x1_0000_0000, 0x100);
    vstd::arithmetic::div_mod::lemma_div_denominator(n, 0x100_0000_0000, 0x100);
    vstd::arithmetic::div_mod::lemma_div_denominator(n, 0x1_0000_0000_0000, 0x100);
    assert(q7 == n / 0x100_0000_0000_0000);
    assert(0 <= q7 < 0x100);
    let b = le_bytes(n);
    assert(b[0] == n % 0x100);
    assert(b[1] == q1 % 0x100);
    assert(b[2] == q2 % 0x100);
    assert(b[3] == q3 % 0x100);
    assert(b[4] == q4 % 0x100);
    assert(b[5] == q5 % 0x100);
    assert(b[6] == q6 % 0x100);
    assert(b[7] == q7);
    assert(n == 0x100 * q1 + n % 0x100);
    assert(q1 == 0x100 * q2 + q1 % 0x100);
    assert(q2 == 0x100 * q3 + q2 % 0x100);
    assert(q3 == 0x100 * q4 + q3 % 0x100);
    assert(q4 == 0x100 * q5 + q4 % 0x100);
    assert(q5 == 0x100 * q6 + q5 % 0x100);
    assert(q6 == 0x100 * q7 + q6 % 0x100);
}

/// The first byte counts ones, and each of the eight bytes counts 256 times what the one before it
/// counts.
pub proof fn law_low_bytes_come_first(bytes: Seq<u8>, at: int, raised: Seq<u8>, i: int)
    requires
        0 <= at,
        at + 8 <= bytes.len(),
        0 <= i < 8,
        bytes[at + i] < 255,
        raised == bytes.update(at + i, (bytes[at + i] + 1) as u8),
    ensures
        le_number(raised, at) == le_number(bytes, at) + vstd::arithmetic::power::pow(256, i as nat),
        0 <= le_number(bytes, at) < 0x1_0000_0000_0000_0000,
{
    reveal_with_fuel(vstd::arithmetic::power::pow, 9);
}

} // verus!
