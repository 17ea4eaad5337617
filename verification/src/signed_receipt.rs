//! Payment receipts signed by the receiving agent.
use vstd::prelude::*;

use crate::text::{append_bytes, be_bytes, u64_be_bytes};
use vstd::utf8::encode_utf8;

verus! {

/// A receipt for a payment between two agents.
pub struct SignedReceipt {
    pub payment_id: String,
    pub amount: u64,
    pub receiver_agent: String,
    pub sender_agent: String,
    pub signature: Vec<u8>,
}

/// The canonical encoding of a receipt: the payment id, the amount as 8
/// big-endian bytes, the receiver and the sender, texts in UTF-8.
pub open spec fn canonical_bytes(r: SignedReceipt) -> Seq<u8> {
    encode_utf8(r.payment_id@) + be_bytes(r.amount as nat, 8) + encode_utf8(r.receiver_agent@)
        + encode_utf8(r.sender_agent@)
}

impl SignedReceipt {
    /// An unsigned receipt.
    pub fn new(payment_id: String, amount: u64, receiver: String, sender: String) -> (r: Self)
        ensures
            r.payment_id == payment_id,
            r.amount == amount,
            r.receiver_agent == receiver,
            r.sender_agent == sender,
            r.signature@.len() == 0,
    {
        SignedReceipt {
            payment_id,
            amount,
            receiver_agent: receiver,
            sender_agent: sender,
            signature: Vec::new(),
        }
    }

    /// Whether the receipt carries a signature.
    pub fn verify_signature(&self) -> (r: bool)
        ensures
            r == (self.signature@.len() > 0),
    {
        !self.signature.is_empty()
    }

    /// The bytes that the signature covers.
    pub fn to_canonical_bytes(&self) -> (b: Vec<u8>)
        ensures
            b@ == canonical_bytes(*self),
    {
        let mut bytes: Vec<u8> = Vec::new();
        append_bytes(&mut bytes, self.payment_id.as_str().as_bytes());
        let amount = u64_be_bytes(self.amount);
        append_bytes(&mut bytes, amount.as_slice());
        append_bytes(&mut bytes, self.receiver_agent.as_str().as_bytes());
        append_bytes(&mut bytes, self.sender_agent.as_str().as_bytes());
        assert(bytes@ =~= canonical_bytes(*self));
        bytes
    }
}

/// Accepts receipts only once it trusts at least one key.
pub struct ReceiptVerifier {
    trusted_keys: Vec<Vec<u8>>,
}

impl ReceiptVerifier {
    /// The number of trusted keys.
    pub closed spec fn key_count(&self) -> nat {
        self.trusted_keys@.len()
    }

    /// No key trusted yet.
    pub fn new() -> (v: Self)
        ensures
            v.key_count() == 0,
    {
        ReceiptVerifier { trusted_keys: Vec::new() }
    }

    /// Trusts one more key.
    pub fn add_trusted_key(&mut self, key: Vec<u8>)
        ensures
            final(self).key_count() == old(self).key_count() + 1,
    {
        self.trusted_keys.push(key);
    }

    /// Accepts a receipt when some key is trusted and the receipt is signed.
    pub fn verify(&self, receipt: &SignedReceipt) -> (r: bool)
        ensures
            r == (self.key_count() > 0 && receipt.signature@.len() > 0),
    {
        if self.trusted_keys.is_empty() {
            return false;
        }
        receipt.verify_signature()
    }
}

/// The canonical encoding begins with the payment id.
pub proof fn law_canonical_bytes_start_with_payment_id(r: SignedReceipt)
    ensures
        canonical_bytes(r).subrange(0, encode_utf8(r.payment_id@).len() as int) == encode_utf8(r.payment_id@),
{
    assert(canonical_bytes(r).subrange(0, encode_utf8(r.payment_id@).len() as int) =~= encode_utf8(r.payment_id@));
}

} // verus!
