//! Episode identifiers: UUIDs held as their 128-bit value (bytes in
//! big-endian order), written in the hyphenated lower-case hex form.
use vstd::prelude::*;
use vstd::arithmetic::div_mod::{lemma_basic_div, lemma_div_denominator, lemma_fundamental_div_mod};
use vstd::arithmetic::power2::{lemma2_to64, lemma2_to64_rest, lemma_pow2_adds, lemma_pow2_pos, pow2};

verus! {

/// The lower-case hex digit of `d`, for `d < 16`.
pub open spec fn hex_digit(d: nat) -> char {
    if d < 10 {
        (48 + d) as char
    } else {
        (87 + d) as char
    }
}

/// The `k`-th hex digit of `id`, counted from the most significant one
/// (`k < 32`).
pub open spec fn nibble(id: u128, k: nat) -> nat {
    ((id as nat) / pow2((4 * (31 - k)) as nat)) % 16
}

/// The hex digits `from..to` of `id`.
pub open spec fn hex_run(id: u128, from: nat, to: nat) -> Seq<char> {
    Seq::new((to - from) as nat, |i: int| hex_digit(nibble(id, (from + i) as nat)))
}

/// The hyphenated form of a UUID: its 32 lower-case hex digits in groups of
/// 8, 4, 4, 4 and 12, joined by '-'.
pub open spec fn hyphenated(id: u128) -> Seq<char> {
    hex_run(id, 0, 8) + seq!['-'] + hex_run(id, 8, 12) + seq!['-'] + hex_run(id, 12, 16) + seq![
        '-',
    ] + hex_run(id, 16, 20) + seq!['-'] + hex_run(id, 20, 32)
}

/// A random (version 4) UUID: its version digit is 4 and its variant bits
/// are `10`.
pub open spec fn is_random_uuid(id: u128) -> bool {
    &&& (id >> 76u128) & 0xfu128 == 4
    &&& (id >> 62u128) & 3u128 == 2
}

/// Calls `to_string` (`Display`) of `uuid::Uuid` on the UUID whose value is
/// `id`; the contract claims the documented hyphenated lower-case form.
#[verifier::external_body]
pub(crate) fn uuid_string(id: u128) -> (text: String)
    ensures
        text@ == hyphenated(id),
{
    uuid::Uuid::from_u128(id).to_string()
}

/// Calls `uuid::Uuid::new_v4`; the contract claims only what every outcome
/// shares: the version and variant bits that it sets. The other bits are
/// random and nothing is said of them.
#[verifier::external_body]
pub(crate) fn new_random_id() -> (id: u128)
    ensures
        is_random_uuid(id),
{
    uuid::Uuid::new_v4().as_u128()
}

/// The number that a lower-case hex digit stands for.
pub open spec fn hex_digit_value(c: char) -> nat {
    if (c as int) < 58 {
        ((c as int) - 48) as nat
    } else {
        ((c as int) - 87) as nat
    }
}

/// The number that a run of lower-case hex digits stands for.
pub open spec fn hex_value(digits: Seq<char>) -> nat
    decreases digits.len(),
{
    if digits.len() == 0 {
        0
    } else {
        hex_value(digits.drop_last()) * 16 + hex_digit_value(digits.last())
    }
}

/// The first `m` hex digits of `id` stand for `id` without its last
/// `32 - m` digits.
proof fn lemma_hex_prefix_value(id: u128, m: nat)
    requires
        m <= 32,
    ensures
        hex_value(hex_run(id, 0, m)) == (id as nat) / pow2((4 * (32 - m)) as nat),
    decreases m,
{
    lemma2_to64();
    if m == 0 {
        assert(hex_run(id, 0, 0) =~= Seq::<char>::empty());
        lemma2_to64_rest();
        lemma_pow2_adds(64, 64);
        assert(pow2(128) == 0x1_0000_0000_0000_0000_0000_0000_0000_0000nat);
        lemma_basic_div(id as int, pow2(128) as int);
    } else {
        lemma_hex_prefix_value(id, (m - 1) as nat);
        let run = hex_run(id, 0, m);
        assert(run.drop_last() =~= hex_run(id, 0, (m - 1) as nat));
        let e = (4 * (32 - m)) as nat;
        let a = pow2(e);
        lemma_pow2_pos(e);
        lemma_pow2_adds(e, 4);
        assert((e + 4) as nat == (4 * (32 - (m - 1))) as nat);
        let q = (id as nat) / a;
        lemma_div_denominator(id as int, a as int, 16);
        lemma_fundamental_div_mod(q as int, 16);
        assert(nibble(id, (m - 1) as nat) == q % 16);
        assert(run.last() == hex_digit(q % 16));
        assert(hex_digit_value(hex_digit(q % 16)) == q % 16);
        assert(hex_value(run) == hex_value(hex_run(id, 0, (m - 1) as nat)) * 16 + q % 16);
        assert((q / 16) * 16 == 16 * (q / 16)) by (nonlinear_arith);
    }
}

/// The text form of an id is 36 characters: lower-case hex digits with '-'
/// at places 8, 13, 18 and 23; its 32 digits, read in order, stand for the id.
pub proof fn lemma_hyphenated_reads_back(id: u128)
    ensures
        hyphenated(id).len() == 36,
        hyphenated(id)[8] == '-' && hyphenated(id)[13] == '-' && hyphenated(id)[18] == '-'
            && hyphenated(id)[23] == '-',
        forall|i: int|
            0 <= i < 36 && i != 8 && i != 13 && i != 18 && i != 23 ==> {
                let c = #[trigger] hyphenated(id)[i] as int;
                (48 <= c <= 57) || (97 <= c <= 102)
            },
        hex_value(
            hyphenated(id).subrange(0, 8) + hyphenated(id).subrange(9, 13) + hyphenated(id).subrange(
                14,
                18,
            ) + hyphenated(id).subrange(19, 23) + hyphenated(id).subrange(24, 36),
        ) == id,
{
    let h = hyphenated(id);
    let digits = h.subrange(0, 8) + h.subrange(9, 13) + h.subrange(14, 18) + h.subrange(19, 23)
        + h.subrange(24, 36);
    assert(digits =~= hex_run(id, 0, 32));
    lemma_hex_prefix_value(id, 32);
    assert(pow2(0) == 1) by {
        lemma2_to64();
    }
    assert((4 * (32 - 32nat)) as nat == 0);
    assert((id as nat) / 1 == id as nat);
    assert(hex_value(hex_run(id, 0, 32)) == id as nat);
}

} // verus!
