//! Versioned trigger configurations. Instants are microseconds since the
//! Unix epoch.
use vstd::prelude::*;

use crate::keyed::StrMap;

verus! {

/// One version of a trigger's configuration. The threshold is kept as the
/// IEEE-754 bits of its `f64` value.
pub struct VersionedTriggerConfig {
    pub version: u64,
    pub trigger_type: String,
    pub threshold_bits: u64,
    pub created_at: i64,
    pub created_by: String,
}

impl VersionedTriggerConfig {
    /// A copy of the configuration.
    pub fn duplicate(&self) -> (c: Self)
        ensures
            c == *self,
    {
        VersionedTriggerConfig {
            version: self.version,
            trigger_type: self.trigger_type.clone(),
            threshold_bits: self.threshold_bits,
            created_at: self.created_at,
            created_by: self.created_by.clone(),
        }
    }
}

/// The last configuration in `s` created at or before `t`, if any.
pub open spec fn last_at_or_before(s: Seq<VersionedTriggerConfig>, t: i64) -> Option<VersionedTriggerConfig>
    decreases s.len(),
{
    if s.len() == 0 {
        None
    } else if s.last().created_at <= t {
        Some(s.last())
    } else {
        last_at_or_before(s.drop_last(), t)
    }
}

/// The configuration versions of each trigger type, oldest first.
pub struct TriggerConfigVersioner {
    versions: StrMap<Vec<VersionedTriggerConfig>>,
}

impl TriggerConfigVersioner {
    pub closed spec fn wf(&self) -> bool {
        self.versions.wf()
    }

    /// The versions of each trigger type, oldest first.
    pub closed spec fn history(&self) -> Map<Seq<char>, Seq<VersionedTriggerConfig>> {
        self.versions.map().map_values(|v: Vec<VersionedTriggerConfig>| v@)
    }

    /// The versions of a trigger type, oldest first (none for an unknown type).
    pub open spec fn history_of(&self, t: Seq<char>) -> Seq<VersionedTriggerConfig> {
        if self.history().dom().contains(t) { self.history()[t] } else { Seq::empty() }
    }

    /// No configuration.
    pub fn new() -> (v: Self)
        ensures
            v.wf(),
            v.history() == Map::<Seq<char>, Seq<VersionedTriggerConfig>>::empty(),
    {
        let v = TriggerConfigVersioner { versions: StrMap::new() };
        assert(v.history() =~= Map::<Seq<char>, Seq<VersionedTriggerConfig>>::empty());
        v
    }

    /// Appends a configuration version for the trigger type.
    pub fn add_version(&mut self, trigger_type: &str, config: VersionedTriggerConfig)
        requires
            old(self).wf(),
        ensures
            final(self).wf(),
            final(self).history() == old(self).history().insert(trigger_type@, old(self).history_of(trigger_type@).push(config)),
    {
        let mut list: Vec<VersionedTriggerConfig> = match self.versions.remove(trigger_type) {
            Some(v) => v,
            None => Vec::new(),
        };
        list.push(config);
        self.versions.insert(trigger_type, list);
        assert(self.history() =~= old(self).history().insert(trigger_type@, old(self).history_of(trigger_type@).push(config)));
    }

    fn versions_of(&self, trigger_type: &str) -> (r: Option<&Vec<VersionedTriggerConfig>>)
        requires
            self.wf(),
        ensures
            r matches Some(v) ==> self.history().dom().contains(trigger_type@) && v@ == self.history()[trigger_type@],
            r is None ==> !self.history().dom().contains(trigger_type@),
    {
        self.versions.get(trigger_type)
    }

    /// The latest configuration of the trigger type.
    pub fn get_active_config(&self, trigger_type: &str) -> (r: Option<&VersionedTriggerConfig>)
        requires
            self.wf(),
        ensures
            r is None <==> self.history_of(trigger_type@).len() == 0,
            r matches Some(c) ==> *c == self.history_of(trigger_type@).last(),
    {
        match self.versions_of(trigger_type) {
            Some(v) => {
                if v.len() == 0 {
                    None
                } else {
                    Some(&v[v.len() - 1])
                }
            },
            None => None,
        }
    }

    /// The configuration that was active at `time`: the latest created at or
    /// before it.
    pub fn get_config_at_time(&self, trigger_type: &str, time: i64) -> (r: Option<&VersionedTriggerConfig>)
        requires
            self.wf(),
        ensures
            match r {
                Some(c) => last_at_or_before(self.history_of(trigger_type@), time) == Some(*c),
                None => last_at_or_before(self.history_of(trigger_type@), time) is None,
            },
    {
        match self.versions_of(trigger_type) {
            Some(v) => {
                let mut i: usize = v.len();
                assert(v@.subrange(0, v@.len() as int) =~= v@);
                while i > 0
                    invariant
                        i <= v@.len(),
                        v@ == self.history_of(trigger_type@),
                        last_at_or_before(v@, time) == last_at_or_before(v@.subrange(0, i as int), time),
                    decreases i,
                {
                    proof {
                        assert(v@.subrange(0, i as int).drop_last() =~= v@.subrange(0, i - 1));
                    }
                    if v[i - 1].created_at <= time {
                        return Some(&v[i - 1]);
                    }
                    i = i - 1;
                }
                assert(v@.subrange(0, 0) =~= Seq::<VersionedTriggerConfig>::empty());
                None
            },
            None => None,
        }
    }

    /// A copy of the trigger type's active configuration, to pin it for a
    /// vault.
    pub fn snapshot_for_vault(&self, _vault_id: &str, trigger_type: &str) -> (r: Option<VersionedTriggerConfig>)
        requires
            self.wf(),
        ensures
            r is None <==> self.history_of(trigger_type@).len() == 0,
            r matches Some(c) ==> c == self.history_of(trigger_type@).last(),
    {
        match self.get_active_config(trigger_type) {
            Some(c) => Some(c.duplicate()),
            None => None,
        }
    }
}

/// A newly added version becomes the active one.
pub proof fn law_added_version_is_active(
    before: Map<Seq<char>, Seq<VersionedTriggerConfig>>,
    t: Seq<char>,
    prior: Seq<VersionedTriggerConfig>,
    c: VersionedTriggerConfig,
)
    ensures
        before.insert(t, prior.push(c))[t].last() == c,
{
}

/// A version created at or before a time is never skipped: the lookup at a
/// time finds a version created at or before it whenever one exists.
pub proof fn law_lookup_at_time_sound(s: Seq<VersionedTriggerConfig>, t: i64)
    ensures
        last_at_or_before(s, t) matches Some(c) ==> c.created_at <= t && s.contains(c),
        (exists|i: int| 0 <= i < s.len() && (#[trigger] s[i]).created_at <= t) ==> last_at_or_before(s, t) is Some,
    decreases s.len(),
{
    if s.len() > 0 {
        law_lookup_at_time_sound(s.drop_last(), t);
        if let Some(c) = last_at_or_before(s.drop_last(), t) {
            if s.last().created_at > t {
                let k = choose|k: int| 0 <= k < s.drop_last().len() && s.drop_last()[k] == c;
                assert(s[k] == c);
            }
        }
        if s.last().created_at > t {
            if exists|i: int| 0 <= i < s.len() && (#[trigger] s[i]).created_at <= t {
                let i = choose|i: int| 0 <= i < s.len() && (#[trigger] s[i]).created_at <= t;
                assert(s.drop_last()[i].created_at <= t);
            }
        } else {
            assert(s[s.len() - 1] == s.last());
        }
    }
}

} // verus!
