//! Reporting reads scoped to one manager.
use vstd::prelude::*;

use crate::text::str_eq;

verus! {

/// A client of a manager.
pub struct ClientRecord {
    pub manager_id: String,
    pub client_name: String,
}

/// The records of `manager_id`, in order; no other manager's record is
/// ever included.
pub fn scoped_report<'a>(records: &'a [ClientRecord], manager_id: &str) -> (r: Vec<&'a ClientRecord>)
    ensures
        r@.map_values(|c: &ClientRecord| *c)
            == records@.filter(|c: ClientRecord| c.manager_id@ == manager_id@),
        forall|i: int| 0 <= i < r@.len() ==> (#[trigger] r@[i]).manager_id@ == manager_id@,
{
    let mut r: Vec<&ClientRecord> = Vec::new();
    let mut i: usize = 0;
    while i < records.len()
        invariant
            i <= records@.len(),
            r@.map_values(|c: &ClientRecord| *c)
                == records@.subrange(0, i as int).filter(|c: ClientRecord| c.manager_id@ == manager_id@),
            forall|k: int| 0 <= k < r@.len() ==> (#[trigger] r@[k]).manager_id@ == manager_id@,
        decreases records@.len() - i,
    {
        proof {
            reveal_with_fuel(Seq::<_>::filter, 1);
            assert(records@.subrange(0, i + 1).drop_last() =~= records@.subrange(0, i as int));
        }
        let c = &records[i];
        if str_eq(c.manager_id.as_str(), manager_id) {
            let ghost before = r@.map_values(|c: &ClientRecord| *c);
            r.push(c);
            assert(r@.map_values(|c: &ClientRecord| *c) =~= before.push(*c));
        }
        i = i + 1;
    }
    assert(records@.subrange(0, i as int) =~= records@);
    r
}

} // verus!
