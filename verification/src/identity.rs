use vstd::prelude::*;

verus! {

/// The identity of the process behind one filesystem request, as the kernel
/// reports it: user id, group id and process id. Built fresh for every
/// request and never stored.
#[derive(Copy, Clone, PartialEq, Eq, Structural, PartialOrd, Ord, Debug, Hash)]
pub struct UidGidPid {
    pub uid: u32,
    pub gid: u32,
    pub pid: u32,
}

} // verus!
