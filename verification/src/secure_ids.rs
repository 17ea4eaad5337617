//! Unguessable identifiers derived from salted hashes.
use vstd::prelude::*;

use crate::digest::{hex_encode, sha256, sha256_spec};
use crate::text::{append_bytes, concat, hex_lower, to_string};
use vstd::utf8::encode_utf8;

verus! {

/// The hex text of the first 16 bytes of SHA-256 over the concatenated UTF-8
/// bytes of `a`, `b` and `c`.
pub open spec fn salted_id_hex(a: Seq<char>, b: Seq<char>, c: Seq<char>) -> Seq<char> {
    hex_lower(sha256_spec(encode_utf8(a) + encode_utf8(b) + encode_utf8(c)).subrange(0, 16))
}

/// Derives identifiers from a secret salt.
pub struct SecureIdGenerator {
    salt: String,
}

impl SecureIdGenerator {
    pub closed spec fn salt(&self) -> Seq<char> {
        self.salt@
    }

    /// A generator with the given salt.
    pub fn new(salt: &str) -> (g: Self)
        ensures
            g.salt() == salt@,
    {
        SecureIdGenerator { salt: to_string(salt) }
    }

    fn salted_hex(&self, a: &str, b: &str) -> (r: String)
        ensures
            r@ == salted_id_hex(self.salt(), a@, b@),
    {
        let mut data: Vec<u8> = Vec::new();
        append_bytes(&mut data, self.salt.as_str().as_bytes());
        append_bytes(&mut data, a.as_bytes());
        append_bytes(&mut data, b.as_bytes());
        let digest = sha256(data.as_slice());
        let mut head: Vec<u8> = Vec::new();
        let mut i: usize = 0;
        while i < 16
            invariant
                digest@.len() == 32,
                i <= 16,
                head@ == digest@.subrange(0, i as int),
            decreases 16 - i,
        {
            head.push(digest[i]);
            i = i + 1;
            assert(head@ =~= digest@.subrange(0, i as int));
        }
        assert(data@ =~= encode_utf8(self.salt()) + encode_utf8(a@) + encode_utf8(b@));
        hex_encode(head.as_slice())
    }

    /// `vault_` and 32 hex digits determined by the salt, manager and name.
    pub fn generate_vault_id(&self, manager_id: &str, name: &str) -> (r: String)
        ensures
            r@ == "vault_"@ + salted_id_hex(self.salt(), manager_id@, name@),
    {
        let h = self.salted_hex(manager_id, name);
        concat("vault_", h.as_str())
    }

    /// `secret_` and 32 hex digits determined by the salt, vault and purpose.
    pub fn generate_secret_ref(&self, vault_id: &str, purpose: &str) -> (r: String)
        ensures
            r@ == "secret_"@ + salted_id_hex(self.salt(), vault_id@, purpose@),
    {
        let h = self.salted_hex(vault_id, purpose);
        concat("secret_", h.as_str())
    }
}

} // verus!
