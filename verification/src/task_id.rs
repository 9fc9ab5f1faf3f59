//! Task identifiers: random 128-bit values, and their text form.

use vstd::prelude::*;

verus! {

/// The bits of an identifier that say how it was made: the version (the
/// thirteenth hexadecimal digit) and the variant (the two bits that follow
/// the sixteenth).
pub const MADE_MASK: u128 = 0x0000_0000_0000_f000_c000_0000_0000_0000;

/// The reading of those bits on a random identifier: version 4, variant 1.
pub const MADE_AT_RANDOM: u128 = 0x0000_0000_0000_4000_8000_0000_0000_0000;

/// The identifier is marked as made at random.
pub open spec fn is_random_id(task_id: u128) -> bool {
    task_id & MADE_MASK == MADE_AT_RANDOM
}

/// The character of a hexadecimal digit, in lower case.
pub open spec fn hex_char(digit: nat) -> char {
    seq!['0', '1', '2', '3', '4', '5', '6', '7', '8', '9', 'a', 'b', 'c', 'd', 'e', 'f'][digit as int]
}

/// The hexadecimal digit of `task_id` at `index`, counted from the most
/// significant one, which has index 0; the last has index 31.
pub open spec fn hex_digit(task_id: u128, index: nat) -> nat {
    ((task_id >> (((31 - index) * 4) as u128)) & 0xf) as nat
}

/// The digits of `task_id` from index `from` up to, not including, `to`.
pub open spec fn hex_run(task_id: u128, from: nat, to: nat) -> Seq<char> {
    Seq::new((to - from) as nat, |i: int| hex_char(hex_digit(task_id, (from + i) as nat)))
}

/// The text form of an identifier: its 32 hexadecimal digits in lower case,
/// in groups of 8, 4, 4, 4 and 12 with a hyphen between them.
pub open spec fn task_id_text(task_id: u128) -> Seq<char> {
    hex_run(task_id, 0, 8) + seq!['-'] + hex_run(task_id, 8, 12) + seq!['-'] + hex_run(
        task_id,
        12,
        16,
    ) + seq!['-'] + hex_run(task_id, 16, 20) + seq!['-'] + hex_run(task_id, 20, 32)
}

/// `uuid::Uuid::new_v4`, read as a number by `Uuid::as_u128`: a value drawn
/// from the random source of the operating system, with the version and
/// variant bits set to say so. Nothing else is claimed of it. The call does
/// not return where the operating system has no random bytes to give.
#[verifier::external_body]
pub(crate) fn new_task_id() -> (task_id: u128)
    ensures
        is_random_id(task_id),
{
    uuid::Uuid::new_v4().as_u128()
}

/// `Uuid::to_string` on the identifier made by `Uuid::from_u128`: the
/// hyphenated lower-case form, most significant digit first.
#[verifier::external_body]
pub(crate) fn format_task_id(task_id: u128) -> (text: String)
    ensures
        text@ == task_id_text(task_id),
{
    uuid::Uuid::from_u128(task_id).to_string()
}

} // verus!
