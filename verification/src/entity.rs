//! Entities and the text of their ids.
use vstd::prelude::*;
use vstd::arithmetic::power2::{pow2, lemma_pow2_adds, lemma_pow2_pos, lemma2_to64};
use vstd::arithmetic::div_mod::{lemma_div_denominator, lemma_fundamental_div_mod};

verus! {

/// An entity of the world, identified by the 128 bits of its UUID.
#[derive(Clone, Copy, Debug, PartialEq, Eq, Structural)]
pub struct Entity(pub u128);

/// The lower-case hexadecimal digit for `n` in `0..16`.
pub open spec fn hex_digit(n: int) -> char {
    if n < 10 {
        (48 + n) as char
    } else {
        (87 + n) as char
    }
}

/// The `k`-th of the 32 hexadecimal digits of `bits`, most significant first.
pub open spec fn uuid_nibble(bits: u128, k: int) -> int {
    ((bits as nat) / pow2((124 - 4 * k) as nat)) as int % 16
}

/// Which hexadecimal digit stands at position `i` of the hyphenated form.
pub open spec fn uuid_digit_at(i: int) -> int {
    if i < 8 {
        i
    } else if i < 13 {
        i - 1
    } else if i < 18 {
        i - 2
    } else if i < 23 {
        i - 3
    } else {
        i - 4
    }
}

/// The hyphenated lower-case text of a UUID, as in
/// `67e55044-10b1-426f-9247-bb680e5fe0c8`: the 32 hexadecimal digits of its
/// 128 bits in groups of 8, 4, 4, 4 and 12.
pub open spec fn uuid_text(bits: u128) -> Seq<char> {
    Seq::new(
        36,
        |i: int|
            if i == 8 || i == 13 || i == 18 || i == 23 {
                '-'
            } else {
                hex_digit(uuid_nibble(bits, uuid_digit_at(i)))
            },
    )
}

/// Formats a UUID given by its 128 bits through `uuid::Uuid`'s `Display`,
/// which writes the hyphenated lower-case form; the contract states that form.
#[verifier::external_body]
pub(crate) fn uuid_string(bits: u128) -> (s: String)
    ensures
        s@ == uuid_text(bits),
{
    uuid::Uuid::from_u128(bits).to_string()
}

/// The position in the hyphenated form of the `k`-th hexadecimal digit.
pub open spec fn uuid_position_of_digit(k: int) -> int {
    if k < 8 {
        k
    } else if k < 12 {
        k + 1
    } else if k < 16 {
        k + 2
    } else if k < 20 {
        k + 3
    } else {
        k + 4
    }
}

/// The first `k + 1` hexadecimal digits of `bits`, read as a number.
spec fn uuid_prefix(bits: u128, k: int) -> int {
    ((bits as nat) / pow2((124 - 4 * k) as nat)) as int
}

proof fn lemma_hex_digit_injective(n: int, m: int)
    requires
        0 <= n < 16,
        0 <= m < 16,
        hex_digit(n) == hex_digit(m),
    ensures
        n == m,
{
    let cn: int = if n < 10 { 48 + n } else { 87 + n };
    let cm: int = if m < 10 { 48 + m } else { 87 + m };
    assert(hex_digit(n) as int == cn);
    assert(hex_digit(m) as int == cm);
}

proof fn lemma_uuid_prefix_step(bits: u128, k: int)
    requires
        0 <= k < 31,
    ensures
        uuid_prefix(bits, k + 1) == 16 * uuid_prefix(bits, k) + uuid_nibble(bits, k + 1),
{
    let e: nat = (120 - 4 * k) as nat;
    let x: int = bits as int;
    lemma2_to64();
    lemma_pow2_pos(e);
    lemma_pow2_adds(e, 4);
    assert((124 - 4 * k) as nat == e + 4);
    assert(pow2((124 - 4 * k) as nat) == pow2(e) * 16);
    lemma_div_denominator(x, pow2(e) as int, 16);
    lemma_fundamental_div_mod(x / pow2(e) as int, 16);
}

proof fn lemma_uuid_first_prefix(bits: u128)
    ensures
        uuid_prefix(bits, 0) == uuid_nibble(bits, 0),
{
    lemma2_to64();
    lemma_pow2_adds(64, 64);
    lemma_pow2_adds(124, 4);
    lemma_pow2_pos(124);
    let d: int = pow2(124) as int;
    assert(d * 16 == pow2(64) * pow2(64));
    assert(d * 16 == 0x1_0000_0000_0000_0000_0000_0000_0000_0000);
    let x: int = bits as int;
    assert(x / d < 16) by (nonlinear_arith)
        requires
            0 <= x < d * 16,
            d > 0,
    ;
    assert(x / d >= 0) by (nonlinear_arith)
        requires
            0 <= x,
            d > 0,
    ;
}

proof fn lemma_uuid_prefixes_agree(a: u128, b: u128, k: int)
    requires
        0 <= k <= 31,
        forall|j: int| 0 <= j < 32 ==> uuid_nibble(a, j) == uuid_nibble(b, j),
    ensures
        uuid_prefix(a, k) == uuid_prefix(b, k),
    decreases k,
{
    if k == 0 {
        lemma_uuid_first_prefix(a);
        lemma_uuid_first_prefix(b);
        assert(uuid_nibble(a, 0) == uuid_nibble(b, 0));
    } else {
        lemma_uuid_prefixes_agree(a, b, k - 1);
        lemma_uuid_prefix_step(a, k - 1);
        lemma_uuid_prefix_step(b, k - 1);
        assert(uuid_nibble(a, k) == uuid_nibble(b, k));
    }
}

/// Two UUIDs have the same hyphenated text only if they are the same UUID.
pub proof fn lemma_uuid_text_injective(a: u128, b: u128)
    requires
        uuid_text(a) == uuid_text(b),
    ensures
        a == b,
{
    assert forall|k: int| 0 <= k < 32 implies uuid_nibble(a, k) == uuid_nibble(b, k) by {
        let p: int = uuid_position_of_digit(k);
        assert(uuid_digit_at(p) == k);
        assert(0 <= p < 36 && p != 8 && p != 13 && p != 18 && p != 23);
        assert(uuid_text(a)[p] == hex_digit(uuid_nibble(a, k)));
        assert(uuid_text(b)[p] == hex_digit(uuid_nibble(b, k)));
        assert(uuid_text(a)[p] == uuid_text(b)[p]);
        lemma_hex_digit_injective(uuid_nibble(a, k), uuid_nibble(b, k));
    }
    lemma_uuid_prefixes_agree(a, b, 31);
    lemma2_to64();
    assert((124 - 4 * 31) as nat == 0);
    assert(pow2((124 - 4 * 31) as nat) == 1);
    assert((a as nat) / 1 == a as nat);
    assert((b as nat) / 1 == b as nat);
    assert(uuid_prefix(a, 31) == a as int);
    assert(uuid_prefix(b, 31) == b as int);
}

} // verus!
