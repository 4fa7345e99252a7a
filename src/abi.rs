//! Values that cross the boundary between the guest, this stub and the host.
use vstd::prelude::*;

verus! {

/// The WASI errno for success.
pub const ERRNO_SUCCESS: u16 = 0;

/// The WASI errno `badf`: bad file descriptor.
pub const ERRNO_BADF: u16 = 8;

/// The WASI errno `inval`: invalid argument.
pub const ERRNO_INVAL: u16 = 28;

/// An unrecoverable guest fault. The host turns it into whatever abnormal
/// halt its platform offers; no further guest instruction runs.
#[derive(Clone, Copy, Debug, PartialEq, Eq, Structural)]
pub struct Trap;

/// A little-endian 32-bit store of `value` at guest address `ptr`, asked
/// of the host.
#[derive(Clone, Copy, Debug, PartialEq, Eq, Structural)]
pub struct Store32 {
    pub ptr: usize,
    pub value: u32,
}

/// What an entry point hands back when it returns to the guest: the errno
/// to return, and the stores the host must carry out first, in order.
#[derive(Debug)]
pub struct Reply {
    pub errno: u16,
    pub stores: Vec<Store32>,
}

impl Reply {
    /// A reply that returns `errno` and writes nothing.
    pub fn errno_only(errno: u16) -> (r: Reply)
        ensures
            r.errno == errno,
            r.stores@ == Seq::<Store32>::empty(),
    {
        let stores: Vec<Store32> = Vec::new();
        assert(stores@ =~= Seq::<Store32>::empty());
        Reply { errno, stores }
    }
}

} // verus!
