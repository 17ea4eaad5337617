//! The server-side ceiling on a client's fee markup.
use vstd::prelude::*;

verus! {

/// The largest markup accepted, in basis points (5%).
pub const MAX_MARKUP_BPS: u32 = 500;

/// The requested markup, unless it exceeds the ceiling.
pub fn validate_markup(requested_bps: u32) -> (r: Result<u32, &'static str>)
    ensures
        r is Ok <==> requested_bps <= MAX_MARKUP_BPS,
        r matches Ok(v) ==> v == requested_bps,
        r matches Err(e) ==> e@ == "requested markup exceeds server-configured ceiling"@,
{
    if requested_bps > MAX_MARKUP_BPS {
        return Err("requested markup exceeds server-configured ceiling");
    }
    Ok(requested_bps)
}

} // verus!
