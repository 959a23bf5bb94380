use vstd::prelude::*;
use vstd::string::StrSliceExecFns;
use vstd::string::StringExecFns;

verus! {

/// Number of characters of an endpoint id that go into its device names.
pub const ENDPOINT_ID_PREFIX_LEN: usize = 13;

/// The host-side device name of an endpoint: `v` and the first characters of its id.
pub open spec fn host_device_name(endpoint_id: Seq<char>) -> Seq<char> {
    seq!['v'] + endpoint_id.subrange(0, ENDPOINT_ID_PREFIX_LEN as int)
}

/// The container-side (peer) device name of an endpoint: `V` and the first characters of its id.
pub open spec fn peer_device_name(endpoint_id: Seq<char>) -> Seq<char> {
    seq!['V'] + endpoint_id.subrange(0, ENDPOINT_ID_PREFIX_LEN as int)
}

/// An endpoint id long enough to name devices after.
pub open spec fn valid_endpoint_id(endpoint_id: Seq<char>) -> bool {
    endpoint_id.len() >= ENDPOINT_ID_PREFIX_LEN
}

/// Derives the (host, peer) veth pair names of an endpoint.
pub fn get_endpoint_veth_pair_names(endpoint_id: &str) -> (r: (String, String))
    requires
        valid_endpoint_id(endpoint_id@),
    ensures
        r.0@ == host_device_name(endpoint_id@),
        r.1@ == peer_device_name(endpoint_id@),
{
    let prefix = endpoint_id.substring_char(0, ENDPOINT_ID_PREFIX_LEN);
    let host = String::from_str("v").concat(prefix);
    let peer = String::from_str("V").concat(prefix);
    proof {
        reveal_strlit("v");
        reveal_strlit("V");
    }
    (host, peer)
}

} // verus!
