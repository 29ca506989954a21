//! The order event model.

use vstd::prelude::*;
use vstd::std_specs::cmp::{PartialEqSpec, PartialEqSpecImpl};

use crate::text::{decimal, digits_value, lemma_decimal_denotes, lemma_decimal_injective, push_decimal};

verus! {

/// One event in the life of an order.
///
/// The amount is a floating-point number; the library carries it as the bit
/// pattern of its IEEE 754 binary64 value (`f64::to_bits`), which it never
/// computes with. Two events are equal when their texts are and their amounts
/// are equal as floating-point numbers (see `amounts_equal`). `Debug` shows the
/// amount as its bit pattern.
#[derive(Debug)]
pub struct OrderEvent {
    pub order_id: String,
    pub user_id: String,
    pub amount_bits: u64,
    pub status: String,
}

/// Whether `bits` encode a NaN: all exponent bits set and a nonzero fraction.
pub open spec fn amount_is_nan(bits: u64) -> bool {
    (bits & 0x7ff0_0000_0000_0000u64) == 0x7ff0_0000_0000_0000u64 && (bits & 0x000f_ffff_ffff_ffffu64)
        != 0
}

/// Whether `bits` encode zero, positive or negative.
pub open spec fn amount_is_zero(bits: u64) -> bool {
    (bits & 0x7fff_ffff_ffff_ffffu64) == 0
}

/// Floating-point equality of two amounts given by their bit patterns: no NaN
/// equals anything, positive and negative zero are equal, and otherwise equal
/// values have equal bit patterns.
pub open spec fn amounts_equal(a: u64, b: u64) -> bool {
    &&& !amount_is_nan(a)
    &&& !amount_is_nan(b)
    &&& (a == b || (amount_is_zero(a) && amount_is_zero(b)))
}

/// Whether the amounts with bit patterns `a` and `b` are equal numbers.
pub fn amounts_match(a: u64, b: u64) -> (equal: bool)
    ensures
        equal == amounts_equal(a, b),
{
    let a_nan = (a & 0x7ff0_0000_0000_0000u64) == 0x7ff0_0000_0000_0000u64 && (a
        & 0x000f_ffff_ffff_ffffu64) != 0;
    let b_nan = (b & 0x7ff0_0000_0000_0000u64) == 0x7ff0_0000_0000_0000u64 && (b
        & 0x000f_ffff_ffff_ffffu64) != 0;
    let both_zero = (a & 0x7fff_ffff_ffff_ffffu64) == 0 && (b & 0x7fff_ffff_ffff_ffffu64) == 0;
    !a_nan && !b_nan && (a == b || both_zero)
}

/// The order identifier of the sample event number `index`: `order-` and `100 + index`.
pub open spec fn sample_order_id(index: nat) -> Seq<char> {
    "order-"@ + decimal(index + 100)
}

/// The user of the sample event number `index`: users 1, 2 and 3 take turns.
pub open spec fn sample_user_id(index: nat) -> Seq<char> {
    "user-"@ + decimal(index % 3 + 1)
}

/// Sample events are for different orders: no two of them share an order identifier.
pub proof fn lemma_sample_order_ids_distinct(i: nat, j: nat)
    requires
        i != j,
    ensures
        sample_order_id(i) != sample_order_id(j),
{
    if sample_order_id(i) == sample_order_id(j) {
        let prefix = "order-"@;
        assert(decimal(i + 100) =~= sample_order_id(i).subrange(prefix.len() as int, sample_order_id(i).len() as int));
        assert(decimal(j + 100) =~= sample_order_id(j).subrange(prefix.len() as int, sample_order_id(j).len() as int));
        lemma_decimal_injective(i + 100, j + 100);
    }
}

/// Sample event `i` is for order number `100 + i`, written after `order-`.
pub proof fn lemma_sample_order_number(i: nat)
    ensures
        sample_order_id(i).subrange(0, 6) == "order-"@,
        digits_value(sample_order_id(i).subrange(6, sample_order_id(i).len() as int)) == i + 100,
{
    reveal_strlit("order-");
    lemma_decimal_denotes(i + 100);
    assert(sample_order_id(i).subrange(0, 6) =~= "order-"@);
    assert(sample_order_id(i).subrange(6, sample_order_id(i).len() as int) =~= decimal(i + 100));
}

/// The users of sample events take turns: user number 1, 2 or 3, the next
/// event's user is another one, and every third event has the same user.
pub proof fn lemma_sample_users_rotate(i: nat)
    ensures
        sample_user_id(i).subrange(0, 5) == "user-"@,
        1 <= digits_value(sample_user_id(i).subrange(5, sample_user_id(i).len() as int)) <= 3,
        sample_user_id(i) != sample_user_id(i + 1),
        sample_user_id(i) == sample_user_id(i + 3),
{
    reveal_strlit("user-");
    lemma_decimal_denotes(i % 3 + 1);
    assert(sample_user_id(i).subrange(0, 5) =~= "user-"@);
    assert(sample_user_id(i).subrange(5, sample_user_id(i).len() as int) =~= decimal(i % 3 + 1));
    assert((i + 3) % 3 == i % 3);
    if sample_user_id(i) == sample_user_id(i + 1) {
        assert(decimal(i % 3 + 1) =~= sample_user_id(i).subrange(5, sample_user_id(i).len() as int));
        assert(decimal((i + 1) % 3 + 1) =~= sample_user_id(i + 1).subrange(5, sample_user_id(i + 1).len() as int));
        lemma_decimal_injective(i % 3 + 1, (i + 1) % 3 + 1);
    }
}

impl OrderEvent {
    pub fn new(order_id: &str, user_id: &str, amount_bits: u64, status: &str) -> (event: Self)
        ensures
            event.order_id@ == order_id@,
            event.user_id@ == user_id@,
            event.amount_bits == amount_bits,
            event.status@ == status@,
    {
        OrderEvent {
            order_id: order_id.to_string(),
            user_id: user_id.to_string(),
            amount_bits,
            status: status.to_string(),
        }
    }

    /// Sample event number `index`, with the amount given by its bit pattern.
    pub fn sample(index: u32, amount_bits: u64) -> (event: Self)
        requires
            index + 100 <= u32::MAX,
        ensures
            event.order_id@ == sample_order_id(index as nat),
            event.user_id@ == sample_user_id(index as nat),
            event.amount_bits == amount_bits,
            event.status@ == "created"@,
    {
        let mut order_id = "order-".to_string();
        push_decimal(&mut order_id, (100 + index) as u64);
        let mut user_id = "user-".to_string();
        push_decimal(&mut user_id, (index % 3 + 1) as u64);
        OrderEvent { order_id, user_id, amount_bits, status: "created".to_string() }
    }
}

impl Clone for OrderEvent {
    fn clone(&self) -> (event: Self)
        ensures
            event == *self,
    {
        OrderEvent {
            order_id: self.order_id.clone(),
            user_id: self.user_id.clone(),
            amount_bits: self.amount_bits,
            status: self.status.clone(),
        }
    }
}

impl PartialEq for OrderEvent {
    fn eq(&self, other: &Self) -> (equal: bool) {
        self.order_id == other.order_id && self.user_id == other.user_id && amounts_match(
            self.amount_bits,
            other.amount_bits,
        ) && self.status == other.status
    }
}

impl PartialEqSpecImpl for OrderEvent {
    open spec fn obeys_eq_spec() -> bool {
        true
    }

    open spec fn eq_spec(&self, other: &OrderEvent) -> bool {
        &&& self.order_id@ == other.order_id@
        &&& self.user_id@ == other.user_id@
        &&& amounts_equal(self.amount_bits, other.amount_bits)
        &&& self.status@ == other.status@
    }
}

/// Events are equal exactly when they are about the same order, the same user
/// and the same status, with amounts that are the same number: events that
/// differ in any text, or whose amounts differ as numbers, are not equal.
pub proof fn lemma_event_equality(a: OrderEvent, b: OrderEvent)
    ensures
        PartialEqSpec::eq_spec(&a, &b) ==> a.order_id@ == b.order_id@,
        PartialEqSpec::eq_spec(&a, &b) ==> a.user_id@ == b.user_id@,
        PartialEqSpec::eq_spec(&a, &b) ==> a.status@ == b.status@,
        PartialEqSpec::eq_spec(&a, &b) ==> amounts_equal(a.amount_bits, b.amount_bits),
        a.order_id@ == b.order_id@ && a.user_id@ == b.user_id@ && a.status@ == b.status@
            && a.amount_bits == b.amount_bits && !amount_is_nan(a.amount_bits) ==> PartialEqSpec::eq_spec(&a, &b),
{
}

/// No amount equals a NaN, positive and negative zero are equal, and an amount
/// that is not a NaN equals itself.
pub proof fn lemma_amount_equality(a: u64, b: u64)
    ensures
        amount_is_nan(a) ==> !amounts_equal(a, b),
        amount_is_nan(b) ==> !amounts_equal(a, b),
        a == 0 && b == 0x8000_0000_0000_0000u64 ==> amounts_equal(a, b),
        !amount_is_nan(a) ==> amounts_equal(a, a),
        !amounts_equal(0x7ff8_0000_0000_0000u64, 0x7ff8_0000_0000_0000u64),
        a != b && !(amount_is_zero(a) && amount_is_zero(b)) ==> !amounts_equal(a, b),
        amounts_equal(a, b) ==> amounts_equal(b, a),
{
    assert(0x7ff8_0000_0000_0000u64 & 0x7ff0_0000_0000_0000u64 == 0x7ff0_0000_0000_0000u64) by (bit_vector);
    assert(0x7ff8_0000_0000_0000u64 & 0x000f_ffff_ffff_ffffu64 != 0) by (bit_vector);
    if a == 0 && b == 0x8000_0000_0000_0000u64 {
        assert(0u64 & 0x7ff0_0000_0000_0000u64 == 0) by (bit_vector);
        assert(0u64 & 0x7fff_ffff_ffff_ffffu64 == 0) by (bit_vector);
        assert(0x8000_0000_0000_0000u64 & 0x7ff0_0000_0000_0000u64 == 0) by (bit_vector);
        assert(0x8000_0000_0000_0000u64 & 0x7fff_ffff_ffff_ffffu64 == 0) by (bit_vector);
    }
}

} // verus!
