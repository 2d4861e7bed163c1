//! Encrypted fund transfer (ERC-7984): the carry-propagation strategy chosen per integer size,
//! and the arithmetic that makes the transfer circuit correct.
//!
//! The circuit compares the sender balance `from` with `amount`, zeroes the amount when funds are
//! insufficient, adds the result to the receiver balance `to`, and subtracts it from `from` in
//! two's complement: it adds the bitwise inverse of the amount and a carry-in of one. All
//! arithmetic is on `n`-bit integers, modulo `2^n`.
use vstd::prelude::*;
use vstd::arithmetic::power2::pow2;

verus! {

/// How the additions of a transfer propagate their carries.
#[derive(Debug, Clone, Copy, PartialEq, Eq, Structural)]
pub enum CarryPropagation {
    /// Sequential ripple carry.
    RippleCarry,
    /// Parallel-prefix Kogge-Stone carry with the given parallel width.
    KoggeStone { par_w: u8 },
}

/// The carry propagation of a latency-optimised transfer on `int_size`-bit integers: ripple
/// carry below 8 bits, Kogge-Stone of width 1 from 8 to 15 bits, 7 from 16 to 23 bits and 12
/// from 24 to 255 bits; none from 256 bits on.
pub open spec fn spec_carry_propagation(int_size: u16) -> Option<CarryPropagation> {
    if int_size < 8 {
        Some(CarryPropagation::RippleCarry)
    } else if int_size < 16 {
        Some(CarryPropagation::KoggeStone { par_w: 1 })
    } else if int_size < 24 {
        Some(CarryPropagation::KoggeStone { par_w: 7 })
    } else if int_size < 256 {
        Some(CarryPropagation::KoggeStone { par_w: 12 })
    } else {
        None
    }
}

/// Returns the carry propagation of a latency-optimised transfer on `int_size`-bit integers, or
/// `None` for the sizes that have none.
pub fn carry_propagation(int_size: u16) -> (r: Option<CarryPropagation>)
    ensures
        r == spec_carry_propagation(int_size),
{
    let par_w: u8 = if 8 <= int_size && int_size < 16 {
        1
    } else if 16 <= int_size && int_size < 24 {
        7
    } else if 24 <= int_size && int_size < 256 {
        12
    } else {
        1
    };
    if int_size < 8 {
        Some(CarryPropagation::RippleCarry)
    } else if int_size < 256 {
        Some(CarryPropagation::KoggeStone { par_w })
    } else {
        None
    }
}

/// The strategy is constant on each size band: ripple carry below 8 bits, Kogge-Stone of
/// width 1 on 8..16, of width 7 on 16..24 and of width 12 on 24..256, and none from 256 bits on.
pub proof fn lemma_carry_propagation_bands(int_size: u16)
    ensures
        int_size < 8 ==> spec_carry_propagation(int_size) == Some(CarryPropagation::RippleCarry),
        8 <= int_size < 16 ==> spec_carry_propagation(int_size) == Some(CarryPropagation::KoggeStone { par_w: 1 }),
        16 <= int_size < 24 ==> spec_carry_propagation(int_size) == Some(CarryPropagation::KoggeStone { par_w: 7 }),
        24 <= int_size < 256 ==> spec_carry_propagation(int_size) == Some(CarryPropagation::KoggeStone { par_w: 12 }),
        256 <= int_size ==> spec_carry_propagation(int_size) is None,
{
}

/// The amount actually moved: `amount` when the sender's balance covers it, zero otherwise.
pub open spec fn moved_amount(from: nat, amount: nat) -> nat {
    if from >= amount { amount } else { 0 }
}

/// The bitwise inverse of an `n`-bit value `x`.
pub open spec fn inverse(x: nat, n: nat) -> nat {
    (pow2(n) - 1 - x) as nat
}

/// The sender's new balance as the circuit computes it: `from` plus the inverse of the moved
/// amount plus a carry-in of one, modulo `2^n`.
pub open spec fn circuit_new_from(from: nat, amount: nat, n: nat) -> nat {
    (from + inverse(moved_amount(from, amount), n) + 1) % pow2(n)
}

/// The receiver's new balance as the circuit computes it: `to` plus the moved amount, modulo
/// `2^n`.
pub open spec fn circuit_new_to(from: nat, to: nat, amount: nat, n: nat) -> nat {
    (to + moved_amount(from, amount)) % pow2(n)
}

/// The transfer circuit meets the transfer's semantics on `n`-bit balances: when the sender has
/// sufficient funds, its balance drops by `amount` and the receiver's grows by it, wrapping at
/// `2^n`; otherwise both balances stay unchanged.
pub proof fn lemma_transfer_semantics(from: nat, to: nat, amount: nat, n: nat)
    requires
        from < pow2(n),
        to < pow2(n),
        amount < pow2(n),
    ensures
        from >= amount ==> circuit_new_from(from, amount, n) == from - amount,
        from >= amount ==> circuit_new_to(from, to, amount, n) == (to + amount) % pow2(n),
        from < amount ==> circuit_new_from(from, amount, n) == from,
        from < amount ==> circuit_new_to(from, to, amount, n) == to,
{
    let m = pow2(n) as int;
    let a = moved_amount(from, amount) as int;
    assert(from + inverse(moved_amount(from, amount), n) + 1 == (from - a) + m);
    vstd::arithmetic::div_mod::lemma_mod_add_multiples_vanish(from - a, m);
    if from >= amount {
        vstd::arithmetic::div_mod::lemma_small_mod((from - a) as nat, m as nat);
    } else {
        vstd::arithmetic::div_mod::lemma_small_mod(from, m as nat);
        vstd::arithmetic::div_mod::lemma_small_mod(to, m as nat);
    }
}

} // verus!
