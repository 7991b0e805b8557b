use vstd::prelude::*;

verus! {

/// The transport names that the runtime knows on some platform.
pub open spec fn known_transport(s: Seq<char>) -> bool {
    s == "netlink"@ || s == "unix"@ || s == "char"@
}

/// Relies on `portus::algs::ipc_valid`: it accepts "unix" on every platform,
/// also "netlink" and "char" on Linux, and nothing else.
#[verifier::external_body]
pub(crate) fn transport_is_valid(s: &str) -> (r: bool)
    ensures
        r ==> known_transport(s@),
        s@ == "unix"@ ==> r,
{
    portus::algs::ipc_valid(s.to_owned()).is_ok()
}

} // verus!
