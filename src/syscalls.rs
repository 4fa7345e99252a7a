//! The exported entry points, one per system call that the guest's runtime
//! imports, with the argument lists of WASI preview 1. None reads guest
//! memory, none keeps state, and no argument changes what a call does.
use vstd::prelude::*;

use crate::abi::{Reply, Store32, Trap, ERRNO_BADF, ERRNO_INVAL, ERRNO_SUCCESS};

verus! {

/// The two stores that report an empty environment: a count of zero
/// variables at `length_ptr`, and zero bytes of data at `data_size_ptr`.
pub open spec fn empty_environ_stores(length_ptr: usize, data_size_ptr: usize) -> Seq<Store32> {
    seq![(Store32 { ptr: length_ptr, value: 0 }), (Store32 { ptr: data_size_ptr, value: 0 })]
}

/// `proc_exit`: the guest asks to terminate with a status. Termination is
/// not supported apart from a fault, so the call always traps.
#[allow(non_snake_case)]
pub fn wasi_snapshot_preview1__proc_exit(_code: u32) -> (r: Result<(), Trap>)
    ensures
        r == Err::<(), Trap>(Trap),
{
    Err(Trap)
}

/// `exit` of the C runtime: always traps, as `proc_exit` does.
#[allow(non_snake_case)]
pub fn env__exit(_code: u32) -> (r: Result<(), Trap>)
    ensures
        r == Err::<(), Trap>(Trap),
{
    Err(Trap)
}

/// `environ_sizes_get`: reports that there are no environment variables and
/// no bytes of environment data, by asking for a zero word at each of the
/// two output addresses, then succeeds.
#[allow(non_snake_case)]
pub fn wasi_snapshot_preview1__environ_sizes_get(length_ptr: usize, data_size_ptr: usize) -> (r:
    Reply)
    ensures
        r.errno == ERRNO_SUCCESS,
        r.stores@ == empty_environ_stores(length_ptr, data_size_ptr),
{
    let mut stores: Vec<Store32> = Vec::new();
    stores.push(Store32 { ptr: length_ptr, value: 0 });
    stores.push(Store32 { ptr: data_size_ptr, value: 0 });
    assert(stores@ =~= empty_environ_stores(length_ptr, data_size_ptr));
    Reply { errno: ERRNO_SUCCESS, stores }
}

/// `environ_get`: there is no environment data to copy out.
#[allow(non_snake_case)]
pub fn wasi_snapshot_preview1__environ_get(_environ: usize, _environ_buf: usize) -> (r: u16)
    ensures
        r == ERRNO_INVAL,
{
    ERRNO_INVAL
}

/// `fd_close`: no descriptor is open.
#[allow(non_snake_case)]
pub fn wasi_snapshot_preview1__fd_close(_fd: usize) -> (r: u16)
    ensures
        r == ERRNO_BADF,
{
    ERRNO_BADF
}

/// `fd_read`: no descriptor is open, so nothing is read.
#[allow(non_snake_case)]
pub fn wasi_snapshot_preview1__fd_read(
    _fd: usize,
    _iovs: usize,
    _iovs_len: usize,
    _nread: usize,
) -> (r: u16)
    ensures
        r == ERRNO_BADF,
{
    ERRNO_BADF
}

/// `path_open`: there is no directory to open a path in.
#[allow(non_snake_case)]
pub fn wasi_snapshot_preview1__path_open(
    _dir_fd: usize,
    _lookup_flags: usize,
    _path: usize,
    _path_len: usize,
    _open_flags: usize,
    _rights_base: u64,
    _rights_inheriting: u64,
    _fd_flags: usize,
    _opened_fd: usize,
) -> (r: u16)
    ensures
        r == ERRNO_BADF,
{
    ERRNO_BADF
}

/// `fd_prestat_get`: no descriptor was opened before the guest started.
#[allow(non_snake_case)]
pub fn wasi_snapshot_preview1__fd_prestat_get(_fd: usize, _prestat: usize) -> (r: u16)
    ensures
        r == ERRNO_BADF,
{
    ERRNO_BADF
}

/// `fd_prestat_dir_name`: no descriptor was opened before the guest
/// started, so none has a directory name.
#[allow(non_snake_case)]
pub fn wasi_snapshot_preview1__fd_prestat_dir_name(_fd: usize, _path: usize, _path_len: usize) -> (r:
    u16)
    ensures
        r == ERRNO_BADF,
{
    ERRNO_BADF
}

} // verus!
