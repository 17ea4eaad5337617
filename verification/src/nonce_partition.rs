//! Per-domain sequential nonces.
use vstd::prelude::*;

use crate::keyed::StrMap;
use crate::text::{contains_str, remove_all_str, to_string, views};

verus! {

/// The largest counter value; a domain whose counter reaches it is exhausted.
pub const NONCE_MAX: u64 = 0xffff_ffff_ffff_ffffu64;

/// The counter from which a domain is close to exhaustion: 80% of the range
/// (`u64::MAX / 100 * 80`).
pub const NONCE_WARN_THRESHOLD: u64 = 14_757_395_258_967_641_280u64;

/// Whether a domain whose counter stands at `counter` is close to running
/// out of nonces, and a warning is due.
pub fn approaching_exhaustion(counter: u64) -> (r: bool)
    ensures
        r == (counter >= NONCE_WARN_THRESHOLD),
{
    counter >= NONCE_WARN_THRESHOLD
}

/// The next nonce of domain `d` under the counters `m`: its counter, or 0 for a
/// domain never used.
pub open spec fn current_in(m: Map<Seq<char>, u64>, d: Seq<char>) -> u64 {
    if m.dom().contains(d) { m[d] } else { 0 }
}

/// Hands out nonces 0, 1, 2, ... independently for each domain.
pub struct NoncePartition {
    partitions: StrMap<u64>,
    exhausted: Vec<String>,
}

impl NoncePartition {
    pub closed spec fn wf(&self) -> bool {
        self.partitions.wf()
    }

    /// Each domain's counter: the next nonce it will hand out.
    pub closed spec fn counters(&self) -> Map<Seq<char>, u64> {
        self.partitions.map()
    }

    /// The domains found exhausted, in the order they were found.
    pub closed spec fn exhausted_domains(&self) -> Seq<Seq<char>> {
        views(self.exhausted@)
    }

    pub open spec fn spec_current_nonce(&self, d: Seq<char>) -> u64 {
        current_in(self.counters(), d)
    }

    /// No domain has been used.
    pub fn new() -> (np: Self)
        ensures
            np.wf(),
            np.counters() == Map::<Seq<char>, u64>::empty(),
            np.exhausted_domains().len() == 0,
    {
        NoncePartition { partitions: StrMap::new(), exhausted: Vec::new() }
    }

    /// Hands out the domain's next nonce and advances its counter. A domain
    /// whose counter is at `NONCE_MAX` is refused and recorded as exhausted.
    pub fn next_nonce(&mut self, domain: &str) -> (r: Result<u64, &'static str>)
        requires
            old(self).wf(),
        ensures
            final(self).wf(),
            old(self).spec_current_nonce(domain@) < NONCE_MAX ==> {
                &&& r == Ok::<u64, &'static str>(old(self).spec_current_nonce(domain@))
                &&& final(self).counters() == old(self).counters().insert(
                    domain@,
                    (old(self).spec_current_nonce(domain@) + 1) as u64,
                )
                &&& final(self).exhausted_domains() == old(self).exhausted_domains()
            },
            old(self).spec_current_nonce(domain@) == NONCE_MAX ==> {
                &&& r matches Err(e) && e@ == "nonce range exhausted for domain"@
                &&& final(self).counters() == old(self).counters()
                &&& final(self).exhausted_domains() == if old(self).exhausted_domains().contains(domain@) {
                    old(self).exhausted_domains()
                } else {
                    old(self).exhausted_domains().push(domain@)
                }
            },
    {
        let nonce: u64 = match self.partitions.get(domain) {
            Some(n) => *n,
            None => 0,
        };
        if nonce >= NONCE_MAX {
            if !contains_str(&self.exhausted, domain) {
                let ghost before = self.exhausted@;
                self.exhausted.push(to_string(domain));
                assert(views(self.exhausted@) =~= views(before).push(domain@));
            }
            return Err("nonce range exhausted for domain");
        }
        self.partitions.insert(domain, nonce + 1);
        Ok(nonce)
    }

    /// The next nonce the domain will hand out (0 for an unused domain).
    pub fn current_nonce(&self, domain: &str) -> (n: u64)
        requires
            self.wf(),
        ensures
            n == self.spec_current_nonce(domain@),
    {
        match self.partitions.get(domain) {
            Some(n) => *n,
            None => 0,
        }
    }

    /// Whether `nonce` is still unused for `domain`: nonces are handed out in
    /// order, so exactly those at or above the counter are.
    pub fn verify_unique(&self, domain: &str, nonce: u64) -> (r: bool)
        requires
            self.wf(),
        ensures
            r == (nonce >= self.spec_current_nonce(domain@)),
    {
        let current = self.current_nonce(domain);
        nonce >= current
    }

    /// Whether the domain ran out of nonces.
    pub fn is_exhausted(&self, domain: &str) -> (r: bool)
        ensures
            r == self.exhausted_domains().contains(domain@),
    {
        contains_str(&self.exhausted, domain)
    }

    /// Starts the domain over at nonce 0 and clears its exhausted mark.
    pub fn reset_domain(&mut self, domain: &str)
        requires
            old(self).wf(),
        ensures
            final(self).wf(),
            final(self).counters() == old(self).counters().insert(domain@, 0),
            final(self).exhausted_domains()
                == old(self).exhausted_domains().filter(|s: Seq<char>| s != domain@),
    {
        self.partitions.insert(domain, 0);
        remove_all_str(&mut self.exhausted, domain);
    }

    /// Sets the domain's counter, as when restoring persisted counters.
    pub fn restore_counter(&mut self, domain: &str, counter: u64)
        requires
            old(self).wf(),
        ensures
            final(self).wf(),
            final(self).counters() == old(self).counters().insert(domain@, counter),
            final(self).exhausted_domains() == old(self).exhausted_domains(),
    {
        self.partitions.insert(domain, counter);
    }
}

/// A nonce handed out for a domain is no longer unique for it, and the
/// domain's next nonce is one larger.
pub proof fn law_issued_nonce_is_spent(m: Map<Seq<char>, u64>, d: Seq<char>)
    requires
        current_in(m, d) < NONCE_MAX,
    ensures
        ({
            let n = current_in(m, d);
            let after = m.insert(d, (n + 1) as u64);
            &&& !(n >= current_in(after, d))
            &&& current_in(after, d) == n + 1
        }),
{
}

/// Issuing a nonce in one domain leaves every other domain's counter alone.
pub proof fn law_domains_are_isolated(m: Map<Seq<char>, u64>, d: Seq<char>, other: Seq<char>)
    requires
        current_in(m, d) < NONCE_MAX,
        other != d,
    ensures
        current_in(m.insert(d, (current_in(m, d) + 1) as u64), other) == current_in(m, other),
{
}

/// After a reset the domain hands out 0 again and is not exhausted.
pub proof fn law_reset_starts_over(m: Map<Seq<char>, u64>, ex: Seq<Seq<char>>, d: Seq<char>)
    ensures
        current_in(m.insert(d, 0), d) == 0,
        !ex.filter(|s: Seq<char>| s != d).contains(d),
{
    broadcast use vstd::seq_lib::group_filter_ensures;
    if ex.filter(|s: Seq<char>| s != d).contains(d) {
        let f = ex.filter(|s: Seq<char>| s != d);
        let k = choose|k: int| 0 <= k < f.len() && f[k] == d;
        assert(f[k] != d);
    }
}

} // verus!
