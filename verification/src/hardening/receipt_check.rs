//! Checking an agent's claimed payment amount against the receiver's signed
//! receipt.
use vstd::prelude::*;

use crate::text::{concat, decimal, digit_char, str_eq, u64_to_decimal};

verus! {

/// A receipt: the amount received and the receiver's signature over it.
pub struct SignedReceipt {
    pub amount: u64,
    pub receiver_signature: String,
}

/// The signature the receiver produces over an amount: its key, a colon and
/// the amount in decimal.
pub open spec fn signature_over(amount: u64, receiver_key: Seq<char>) -> Seq<char> {
    receiver_key + ":"@ + decimal(amount as nat)
}

fn expected_signature(amount: u64, receiver_key: &str) -> (s: String)
    ensures
        s@ == signature_over(amount, receiver_key@),
{
    let head = concat(receiver_key, ":");
    let digits = u64_to_decimal(amount);
    concat(head.as_str(), digits.as_str())
}

/// Accepts the claimed amount only when the receipt is for that amount and
/// carries the receiver's signature over it.
pub fn verify_receipt(claimed_amount: u64, receiver_key: &str, receipt: &SignedReceipt) -> (r: Result<(), &'static str>)
    ensures
        r is Ok <==> (receipt.amount == claimed_amount
            && receipt.receiver_signature@ == signature_over(receipt.amount, receiver_key@)),
        r matches Err(e) ==> e@ == if receipt.amount != claimed_amount {
            "receipt amount does not match agent-supplied amount"@
        } else {
            "receipt signature invalid"@
        },
{
    if receipt.amount != claimed_amount {
        return Err("receipt amount does not match agent-supplied amount");
    }
    let expected = expected_signature(receipt.amount, receiver_key);
    if !str_eq(receipt.receiver_signature.as_str(), expected.as_str()) {
        return Err("receipt signature invalid");
    }
    Ok(())
}

/// The signature over the amount actually received is worthless for any
/// other amount: an over-reported claim is refused.
pub proof fn law_signature_binds_amount(a: u64, b: u64, key: Seq<char>)
    requires
        a != b,
    ensures
        signature_over(a, key) != signature_over(b, key),
{
    lemma_decimal_injective(a as nat, b as nat);
    if signature_over(a, key) == signature_over(b, key) {
        let p = key + ":"@;
        assert(signature_over(a, key).subrange(p.len() as int, signature_over(a, key).len() as int) =~= decimal(a as nat));
        assert(signature_over(b, key).subrange(p.len() as int, signature_over(b, key).len() as int) =~= decimal(b as nat));
    }
}

/// Different numbers have different decimal representations.
pub proof fn lemma_decimal_injective(a: nat, b: nat)
    ensures
        decimal(a) == decimal(b) ==> a == b,
    decreases a + b,
{
    if decimal(a) == decimal(b) {
        if a >= 10 && b >= 10 {
            let da = decimal(a / 10);
            let db = decimal(b / 10);
            assert(decimal(a).drop_last() =~= da);
            assert(decimal(b).drop_last() =~= db);
            lemma_decimal_injective(a / 10, b / 10);
            assert(decimal(a).last() == digit_char(a % 10));
            assert(decimal(b).last() == digit_char(b % 10));
            crate::text::lemma_digit_char_injective(a % 10, b % 10);
            assert(a == (a / 10) * 10 + a % 10);
            assert(b == (b / 10) * 10 + b % 10);
        } else if a < 10 && b < 10 {
            assert(decimal(a)[0] == digit_char(a));
            assert(decimal(b)[0] == digit_char(b));
            crate::text::lemma_digit_char_injective(a, b);
        } else {
            crate::text::lemma_decimal_len(a);
            crate::text::lemma_decimal_len(b);
        }
    }
}

} // verus!
