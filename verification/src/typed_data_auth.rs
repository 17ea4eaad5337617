//! Typed-data authorisation and the signer policy of an account contract.
//!
//! The contract runs in a host that holds its storage, checks signatures
//! (`require_auth`) and hashes. The policy's rules are decided here over the
//! contract's stored state; addresses are their string encodings.
use vstd::prelude::*;

use crate::text::{append_bytes, be_bytes, be_bytes_of, contains_str, remove_all_str, str_eq, to_string, views};
use vstd::string::StringSliceAdditionalSpecFns;

verus! {

/// The approved-asset cap until an admin raises it.
pub const DEFAULT_MAX_APPROVED_ASSETS: u32 = 50;

/// The highest the approved-asset cap can ever be raised.
pub const MAX_APPROVED_ASSETS_CEILING: u32 = 500;

/// Why the policy refused a call.
#[derive(Debug, Clone, Copy, PartialEq, Eq, Structural)]
pub enum PolicyError {
    AlreadyInitialized,
    NotInitialized,
    Unauthorized,
    SignerChangesForbidden,
    InvalidWeight,
    AssetListFull,
    AssetAlreadyApproved,
    AssetNotApproved,
    InvalidMaxApprovedAssets,
}

/// The contract code of each error: its position in the declaration,
/// counting from 1.
pub open spec fn policy_error_code(e: PolicyError) -> u32 {
    match e {
        PolicyError::AlreadyInitialized => 1,
        PolicyError::NotInitialized => 2,
        PolicyError::Unauthorized => 3,
        PolicyError::SignerChangesForbidden => 4,
        PolicyError::InvalidWeight => 5,
        PolicyError::AssetListFull => 6,
        PolicyError::AssetAlreadyApproved => 7,
        PolicyError::AssetNotApproved => 8,
        PolicyError::InvalidMaxApprovedAssets => 9,
    }
}

impl PolicyError {
    /// The error's contract code.
    pub fn code(&self) -> (c: u32)
        ensures
            c == policy_error_code(*self),
            1 <= c <= 9,
    {
        match self {
            PolicyError::AlreadyInitialized => 1,
            PolicyError::NotInitialized => 2,
            PolicyError::Unauthorized => 3,
            PolicyError::SignerChangesForbidden => 4,
            PolicyError::InvalidWeight => 5,
            PolicyError::AssetListFull => 6,
            PolicyError::AssetAlreadyApproved => 7,
            PolicyError::AssetNotApproved => 8,
            PolicyError::InvalidMaxApprovedAssets => 9,
        }
    }
}

/// Hashing of EIP-712 style typed data.
pub struct TypedDataAuth;

impl TypedDataAuth {
    /// The bytes whose SHA-256 is the domain separator: the domain type text
    /// and the chain id as 4 big-endian bytes.
    pub fn domain_separator_preimage(chain_id: u32) -> (b: Vec<u8>)
        ensures
            b@ == "EIP712Domain(string name,string version,u32 chainId,Address verifyingContract)".spec_bytes()
                + be_bytes(chain_id as nat, 4),
    {
        let mut data: Vec<u8> = Vec::new();
        append_bytes(&mut data, "EIP712Domain(string name,string version,u32 chainId,Address verifyingContract)".as_bytes());
        let id = be_bytes_of(chain_id as u128, 4);
        append_bytes(&mut data, id.as_slice());
        data
    }

    /// The bytes whose SHA-256 is a transfer's struct hash: the transfer type
    /// text and the amount as 16 big-endian two's-complement bytes.
    pub fn transfer_struct_preimage(amount: i128) -> (b: Vec<u8>)
        ensures
            b@ == "Transfer(address from,address to,int128 amount)".spec_bytes() + be_bytes((amount as u128) as nat, 16),
    {
        let mut data: Vec<u8> = Vec::new();
        append_bytes(&mut data, "Transfer(address from,address to,int128 amount)".as_bytes());
        let a = be_bytes_of(amount as u128, 16);
        append_bytes(&mut data, a.as_slice());
        data
    }
}

/// The contract's instance storage, as the policy reads it.
pub struct PolicyState {
    pub admin: Option<String>,
    pub allow_signer_changes: Option<bool>,
    pub approved_assets: Vec<String>,
    pub max_approved_assets: Option<u32>,
}

/// A change of a signer's weight: a weight of 0 removes the signer.
pub enum SignerUpdate {
    Weight(String, u32),
    Remove(String),
}

/// The policy's answer to a call: the address whose authorisation the call
/// needs (the host checks it and aborts the call if it fails), and the
/// outcome when it is given. The state is changed only on success.
pub struct Decision<T> {
    pub auth: Option<String>,
    pub result: Result<T, PolicyError>,
}

/// The view of an optional address.
pub open spec fn opt_addr(o: Option<String>) -> Option<Seq<char>> {
    match o {
        Some(s) => Some(s@),
        None => None,
    }
}

impl PolicyState {
    /// The effective approved-asset cap.
    pub open spec fn cap(&self) -> u32 {
        match self.max_approved_assets {
            Some(m) => m,
            None => DEFAULT_MAX_APPROVED_ASSETS,
        }
    }

    pub open spec fn assets(&self) -> Seq<Seq<char>> {
        views(self.approved_assets@)
    }

    /// No asset is approved twice and the list is within its cap, which is
    /// within the ceiling.
    pub open spec fn wf(&self) -> bool {
        &&& self.assets().no_duplicates()
        &&& self.assets().len() <= self.cap()
        &&& self.cap() <= MAX_APPROVED_ASSETS_CEILING
    }

    /// Whether `caller` is the stored admin, and the error when not.
    pub open spec fn admin_check(&self, caller: Seq<char>) -> Option<PolicyError> {
        match self.admin {
            None => Some(PolicyError::NotInitialized),
            Some(a) => if a@ != caller { Some(PolicyError::Unauthorized) } else { None },
        }
    }

    /// The state of a fresh contract.
    pub fn empty() -> (s: Self)
        ensures
            s.admin is None,
            s.allow_signer_changes is None,
            s.approved_assets@.len() == 0,
            s.max_approved_assets is None,
            s.wf(),
    {
        let s = PolicyState { admin: None, allow_signer_changes: None, approved_assets: Vec::new(), max_approved_assets: None };
        assert(s.assets() =~= Seq::<Seq<char>>::empty());
        s
    }

    fn check_admin(&self, caller: &str) -> (r: Option<PolicyError>)
        ensures
            r == self.admin_check(caller@),
    {
        match &self.admin {
            None => Some(PolicyError::NotInitialized),
            Some(a) => {
                if !str_eq(a.as_str(), caller) {
                    Some(PolicyError::Unauthorized)
                } else {
                    None
                }
            },
        }
    }
}

/// The signer policy of an account.
pub struct AccountSignerPolicy;

impl AccountSignerPolicy {
    /// Sets the admin and the signer-change policy, once.
    pub fn initialize(state: &mut PolicyState, admin: &str, allow_signer_changes: bool) -> (d: Decision<()>)
        ensures
            old(state).admin is Some ==> d.auth is None && d.result == Err::<(), PolicyError>(PolicyError::AlreadyInitialized)
                && *final(state) == *old(state),
            old(state).admin is None ==> opt_addr(d.auth) == Some(admin@) && d.result is Ok
                && opt_addr(final(state).admin) == Some(admin@)
                && final(state).allow_signer_changes == Some(allow_signer_changes)
                && final(state).approved_assets == old(state).approved_assets
                && final(state).max_approved_assets == old(state).max_approved_assets,
            old(state).wf() ==> final(state).wf(),
    {
        if state.admin.is_some() {
            return Decision { auth: None, result: Err(PolicyError::AlreadyInitialized) };
        }
        state.admin = Some(to_string(admin));
        state.allow_signer_changes = Some(allow_signer_changes);
        Decision { auth: Some(to_string(admin)), result: Ok(()) }
    }

    /// Sets whether signer changes are allowed; admin only.
    pub fn set_allow_signer_changes(state: &mut PolicyState, admin: &str, allowed: bool) -> (d: Decision<()>)
        ensures
            old(state).admin_check(admin@) matches Some(e) ==> d.auth is None && d.result == Err::<(), PolicyError>(e)
                && *final(state) == *old(state),
            old(state).admin_check(admin@) is None ==> opt_addr(d.auth) == Some(admin@) && d.result is Ok
                && final(state).allow_signer_changes == Some(allowed)
                && final(state).admin == old(state).admin
                && final(state).approved_assets == old(state).approved_assets
                && final(state).max_approved_assets == old(state).max_approved_assets,
            old(state).wf() ==> final(state).wf(),
    {
        if let Some(e) = state.check_admin(admin) {
            return Decision { auth: None, result: Err(e) };
        }
        state.allow_signer_changes = Some(allowed);
        Decision { auth: Some(to_string(admin)), result: Ok(()) }
    }

    /// Whether the policy allows signer changes (not unless set).
    pub fn is_signer_change_allowed(state: &PolicyState) -> (r: bool)
        ensures
            r == (state.allow_signer_changes == Some(true)),
    {
        match state.allow_signer_changes {
            Some(b) => b,
            None => false,
        }
    }

    /// Changes a signer's weight, when the policy allows signer changes;
    /// admin only. A weight of 0 removes the signer.
    pub fn update_account_signer(state: &PolicyState, admin: &str, target_signer: &str, weight: u32) -> (d: Decision<SignerUpdate>)
        ensures
            state.admin_check(admin@) matches Some(e) ==> (d.auth is None && (d.result matches Err(x) && x == e)),
            state.admin_check(admin@) is None ==> opt_addr(d.auth) == Some(admin@),
            state.admin_check(admin@) is None && state.allow_signer_changes != Some(true)
                ==> (d.result matches Err(x) && x == PolicyError::SignerChangesForbidden),
            state.admin_check(admin@) is None && state.allow_signer_changes == Some(true) ==> (match d.result {
                Ok(SignerUpdate::Remove(s)) => weight == 0 && s@ == target_signer@,
                Ok(SignerUpdate::Weight(s, w)) => weight != 0 && s@ == target_signer@ && w == weight,
                Err(_) => false,
            }),
    {
        if let Some(e) = state.check_admin(admin) {
            return Decision { auth: None, result: Err(e) };
        }
        let auth = Some(to_string(admin));
        if !Self::is_signer_change_allowed(state) {
            return Decision { auth, result: Err(PolicyError::SignerChangesForbidden) };
        }
        let update = if weight == 0 {
            SignerUpdate::Remove(to_string(target_signer))
        } else {
            SignerUpdate::Weight(to_string(target_signer), weight)
        };
        Decision { auth, result: Ok(update) }
    }

    /// The effective approved-asset cap.
    pub fn max_approved_assets(state: &PolicyState) -> (m: u32)
        ensures
            m == state.cap(),
    {
        match state.max_approved_assets {
            Some(m) => m,
            None => DEFAULT_MAX_APPROVED_ASSETS,
        }
    }

    /// Raises (or lowers) the approved-asset cap; admin only. The cap stays
    /// within the ceiling and never drops below the approved assets.
    pub fn set_max_approved_assets(state: &mut PolicyState, admin: &str, new_max: u32) -> (d: Decision<()>)
        ensures
            old(state).admin_check(admin@) matches Some(e) ==> d.auth is None && d.result == Err::<(), PolicyError>(e)
                && *final(state) == *old(state),
            old(state).admin_check(admin@) is None ==> opt_addr(d.auth) == Some(admin@),
            old(state).admin_check(admin@) is None && (new_max > MAX_APPROVED_ASSETS_CEILING
                || new_max < old(state).approved_assets@.len())
                ==> d.result == Err::<(), PolicyError>(PolicyError::InvalidMaxApprovedAssets) && *final(state) == *old(state),
            old(state).admin_check(admin@) is None && !(new_max > MAX_APPROVED_ASSETS_CEILING
                || new_max < old(state).approved_assets@.len())
                ==> d.result is Ok && final(state).max_approved_assets == Some(new_max)
                && final(state).admin == old(state).admin
                && final(state).allow_signer_changes == old(state).allow_signer_changes
                && final(state).approved_assets == old(state).approved_assets,
            old(state).wf() ==> final(state).wf(),
    {
        if let Some(e) = state.check_admin(admin) {
            return Decision { auth: None, result: Err(e) };
        }
        let auth = Some(to_string(admin));
        let current_len = state.approved_assets.len();
        if new_max > MAX_APPROVED_ASSETS_CEILING || (new_max as usize) < current_len {
            return Decision { auth, result: Err(PolicyError::InvalidMaxApprovedAssets) };
        }
        state.max_approved_assets = Some(new_max);
        Decision { auth, result: Ok(()) }
    }

    /// Approves an asset; admin only. Refused for an asset already approved
    /// and when the list is at its cap.
    pub fn add_approved_asset(state: &mut PolicyState, admin: &str, asset: &str) -> (d: Decision<()>)
        ensures
            old(state).admin_check(admin@) matches Some(e) ==> d.auth is None && d.result == Err::<(), PolicyError>(e)
                && *final(state) == *old(state),
            old(state).admin_check(admin@) is None ==> opt_addr(d.auth) == Some(admin@),
            old(state).admin_check(admin@) is None ==> d.result == if old(state).assets().contains(asset@) {
                Err::<(), PolicyError>(PolicyError::AssetAlreadyApproved)
            } else if old(state).approved_assets@.len() >= old(state).cap() {
                Err::<(), PolicyError>(PolicyError::AssetListFull)
            } else {
                Ok::<(), PolicyError>(())
            },
            d.result is Err ==> *final(state) == *old(state),
            d.result is Ok ==> final(state).assets() == old(state).assets().push(asset@)
                && final(state).admin == old(state).admin
                && final(state).allow_signer_changes == old(state).allow_signer_changes
                && final(state).max_approved_assets == old(state).max_approved_assets,
            old(state).wf() ==> final(state).wf(),
    {
        if let Some(e) = state.check_admin(admin) {
            return Decision { auth: None, result: Err(e) };
        }
        let auth = Some(to_string(admin));
        if contains_str(&state.approved_assets, asset) {
            return Decision { auth, result: Err(PolicyError::AssetAlreadyApproved) };
        }
        let max = Self::max_approved_assets(state);
        if state.approved_assets.len() >= max as usize {
            return Decision { auth, result: Err(PolicyError::AssetListFull) };
        }
        let ghost before = state.assets();
        state.approved_assets.push(to_string(asset));
        assert(state.assets() =~= before.push(asset@));
        Decision { auth, result: Ok(()) }
    }

    /// Withdraws an asset's approval; admin only. Refused for an asset not
    /// approved.
    pub fn remove_approved_asset(state: &mut PolicyState, admin: &str, asset: &str) -> (d: Decision<()>)
        ensures
            old(state).admin_check(admin@) matches Some(e) ==> d.auth is None && d.result == Err::<(), PolicyError>(e)
                && *final(state) == *old(state),
            old(state).admin_check(admin@) is None ==> opt_addr(d.auth) == Some(admin@),
            old(state).admin_check(admin@) is None ==> d.result == if old(state).assets().contains(asset@) {
                Ok::<(), PolicyError>(())
            } else {
                Err::<(), PolicyError>(PolicyError::AssetNotApproved)
            },
            d.result is Err ==> *final(state) == *old(state),
            d.result is Ok ==> final(state).assets() == old(state).assets().filter(|s: Seq<char>| s != asset@)
                && final(state).admin == old(state).admin
                && final(state).allow_signer_changes == old(state).allow_signer_changes
                && final(state).max_approved_assets == old(state).max_approved_assets,
            old(state).wf() ==> final(state).wf(),
    {
        if let Some(e) = state.check_admin(admin) {
            return Decision { auth: None, result: Err(e) };
        }
        let auth = Some(to_string(admin));
        if !contains_str(&state.approved_assets, asset) {
            return Decision { auth, result: Err(PolicyError::AssetNotApproved) };
        }
        remove_all_str(&mut state.approved_assets, asset);
        proof {
            if old(state).wf() {
                lemma_filter_keeps_distinct_and_shrinks(old(state).assets(), asset@);
            }
        }
        Decision { auth, result: Ok(()) }
    }

    /// The approved assets, in approval order.
    pub fn get_approved_assets(state: &PolicyState) -> (r: &Vec<String>)
        ensures
            views(r@) == state.assets(),
    {
        &state.approved_assets
    }
}

/// `s` without the occurrences of `x`.
pub open spec fn without(s: Seq<Seq<char>>, x: Seq<char>) -> Seq<Seq<char>> {
    s.filter(|e: Seq<char>| e != x)
}

/// Everything a filter keeps comes from the filtered list.
pub proof fn lemma_without_subset(s: Seq<Seq<char>>, x: Seq<char>)
    ensures
        forall|i: int| 0 <= i < without(s, x).len() ==> s.contains(#[trigger] without(s, x)[i]),
    decreases s.len(),
{
    reveal_with_fuel(Seq::<_>::filter, 1);
    if s.len() > 0 {
        let t = s.drop_last();
        lemma_without_subset(t, x);
        let f = without(s, x);
        let ft = without(t, x);
        assert forall|i: int| 0 <= i < f.len() implies s.contains(#[trigger] f[i]) by {
            if i < ft.len() {
                assert(f[i] == ft[i]);
                assert(t.contains(ft[i]));
                let m = choose|m: int| 0 <= m < t.len() && t[m] == ft[i];
                assert(s[m] == t[m]);
            } else {
                assert(f[i] == s[s.len() - 1]);
            }
        }
    }
}

/// Filtering a list without duplicates keeps it without duplicates and no
/// longer.
pub proof fn lemma_filter_keeps_distinct_and_shrinks(s: Seq<Seq<char>>, x: Seq<char>)
    requires
        s.no_duplicates(),
    ensures
        without(s, x).no_duplicates(),
        without(s, x).len() <= s.len(),
    decreases s.len(),
{
    reveal_with_fuel(Seq::<_>::filter, 1);
    broadcast use vstd::seq_lib::group_filter_ensures;
    if s.len() > 0 {
        let t = s.drop_last();
        assert(t.no_duplicates()) by {
            assert forall|i: int, j: int| 0 <= i < t.len() && 0 <= j < t.len() && i != j implies t[i] != t[j] by {
                assert(s[i] != s[j]);
            }
        }
        lemma_filter_keeps_distinct_and_shrinks(t, x);
        let ft = without(t, x);
        if s.last() != x {
            assert(!ft.contains(s.last())) by {
                if ft.contains(s.last()) {
                    let k = choose|k: int| 0 <= k < ft.len() && ft[k] == s.last();
                    lemma_without_subset(t, x);
                    assert(t.contains(ft[k]));
                    let m = choose|m: int| 0 <= m < t.len() && t[m] == ft[k];
                    assert(s[m] == s[s.len() - 1]);
                }
            }
            let f = ft.push(s.last());
            assert(without(s, x) == f);
            assert forall|i: int, j: int| 0 <= i < f.len() && 0 <= j < f.len() && i != j implies f[i] != f[j] by {
                if i < ft.len() && j < ft.len() {
                } else if i == ft.len() {
                    assert(f[j] == ft[j]);
                } else {
                    assert(f[i] == ft[i]);
                }
            }
        } else {
            assert(without(s, x) == ft);
        }
    }
}

} // verus!
