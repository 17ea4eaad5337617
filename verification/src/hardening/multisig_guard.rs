//! Contract upgrades gated on approval by several signers.
use vstd::prelude::*;

use crate::text::{contains_str, to_string, views};

verus! {

/// The number of distinct approvals needed to deploy.
pub const MIN_APPROVALS: usize = 2;

/// Collects approvals of an upgrade from its authorised signers.
pub struct MultisigUpgradeGuard {
    pub required_signers: Vec<String>,
    approvals: Vec<String>,
}

impl MultisigUpgradeGuard {
    /// The signers who approved, in order.
    pub closed spec fn approvals(&self) -> Seq<Seq<char>> {
        views(self.approvals@)
    }

    /// The authorised signers.
    pub closed spec fn signers(&self) -> Seq<Seq<char>> {
        views(self.required_signers@)
    }

    /// Every approval is by an authorised signer and none is repeated.
    pub open spec fn wf(&self) -> bool {
        &&& self.approvals().no_duplicates()
        &&& forall|i: int| 0 <= i < self.approvals().len()
            ==> self.signers().contains(#[trigger] self.approvals()[i])
    }

    /// A guard with no approval yet.
    pub fn new(required_signers: Vec<String>) -> (g: Self)
        ensures
            g.signers() == views(required_signers@),
            g.approvals().len() == 0,
            g.wf(),
    {
        let g = MultisigUpgradeGuard { required_signers, approvals: Vec::new() };
        assert(g.approvals() =~= Seq::<Seq<char>>::empty());
        g
    }

    /// Records `signer`'s approval. Refused for a signer who is not
    /// authorised and for one who already approved.
    pub fn approve(&mut self, signer: &str) -> (r: Result<(), &'static str>)
        ensures
            final(self).signers() == old(self).signers(),
            r is Ok <==> (old(self).signers().contains(signer@)
                && !old(self).approvals().contains(signer@)),
            r matches Err(e) ==> final(self).approvals() == old(self).approvals() && e@ == if !old(self).signers().contains(signer@) {
                "signer not authorized"@
            } else {
                "signer already approved"@
            },
            r is Ok ==> final(self).approvals() == old(self).approvals().push(signer@),
            old(self).wf() ==> final(self).wf(),
    {
        if !contains_str(&self.required_signers, signer) {
            return Err("signer not authorized");
        }
        if contains_str(&self.approvals, signer) {
            return Err("signer already approved");
        }
        let ghost before = self.approvals();
        self.approvals.push(to_string(signer));
        assert(self.approvals() =~= before.push(signer@));
        proof {
            if old(self).wf() {
                assert forall|i: int| 0 <= i < self.approvals().len()
                    implies self.signers().contains(#[trigger] self.approvals()[i]) by {
                    if i < before.len() {
                        assert(self.approvals()[i] == before[i]);
                    }
                }
            }
        }
        Ok(())
    }

    /// Whether enough signers approved.
    pub fn can_deploy(&self) -> (r: bool)
        ensures
            r == (self.approvals().len() >= MIN_APPROVALS),
    {
        self.approvals.len() >= MIN_APPROVALS
    }
}

/// Deploying needs approvals from at least two distinct authorised signers:
/// no signer can approve twice.
pub proof fn law_deploy_needs_distinct_signers(g: MultisigUpgradeGuard)
    requires
        g.wf(),
        g.approvals().len() >= MIN_APPROVALS,
    ensures
        g.approvals()[0] != g.approvals()[1],
        g.signers().contains(g.approvals()[0]),
        g.signers().contains(g.approvals()[1]),
{
}

} // verus!
