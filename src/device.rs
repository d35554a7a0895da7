use vstd::prelude::*;
use crate::report::CMD_GET_CONFIG_DATA;

verus! {

/// Vendor id of the supported mouse.
pub const VID: u16 = 14139;

/// Product id of the mouse on its USB cable.
pub const PID_USB: u16 = 4397;

/// Product id of the wireless dongle.
pub const PID_WIRELESS: u16 = 4472;

/// Length of the status-query feature report, report id included.
pub const QUERY_LEN: usize = 9;

/// Whether a (vendor id, product id) pair is on the allowlist.
pub open spec fn is_supported_spec(vid: u16, pid: u16) -> bool {
    vid == VID && (pid == PID_USB || pid == PID_WIRELESS)
}

/// Whether a (vendor id, product id) pair is on the allowlist.
pub fn is_supported_identity(vid: u16, pid: u16) -> (r: bool)
    ensures
        r == is_supported_spec(vid, pid),
{
    vid == VID && (pid == PID_USB || pid == PID_WIRELESS)
}

/// The positions, in enumeration order, of the candidates whose identity
/// is on the allowlist.
pub open spec fn supported_positions(ids: Seq<(u16, u16)>) -> Seq<usize>
    decreases ids.len(),
{
    if ids.len() == 0 {
        seq![]
    } else {
        let rest = supported_positions(ids.drop_last());
        let k = ids.len() - 1;
        if is_supported_spec(ids[k].0, ids[k].1) {
            rest.push(k as usize)
        } else {
            rest
        }
    }
}

/// The order in which the locator tries enumerated devices, given their
/// (vendor id, product id) pairs: the allowlisted ones, in enumeration order.
pub fn candidate_order(ids: &[(u16, u16)]) -> (r: Vec<usize>)
    ensures
        r@ == supported_positions(ids@),
{
    let mut out: Vec<usize> = Vec::new();
    let mut i: usize = 0;
    while i < ids.len()
        invariant
            i <= ids@.len(),
            out@ == supported_positions(ids@.subrange(0, i as int)),
        decreases ids@.len() - i,
    {
        let (vid, pid) = ids[i];
        proof {
            assert(ids@.subrange(0, i + 1).drop_last() =~= ids@.subrange(0, i as int));
        }
        if is_supported_identity(vid, pid) {
            out.push(i);
        }
        i = i + 1;
    }
    assert(ids@.subrange(0, ids@.len() as int) =~= ids@);
    out
}

/// The status-query feature report: report id 0, then the "get config
/// data" command, then zeros.
pub open spec fn query_report() -> Seq<u8> {
    seq![0u8, CMD_GET_CONFIG_DATA, 0u8, 0u8, 0u8, 0u8, 0u8, 0u8, 0u8]
}

/// Builds the status-query feature report.
pub fn get_config_request() -> (r: Vec<u8>)
    ensures
        r@ == query_report(),
{
    let mut buf: Vec<u8> = vec![0u8; QUERY_LEN];
    buf.set(1, CMD_GET_CONFIG_DATA);
    assert(buf@ =~= query_report());
    buf
}

} // verus!
