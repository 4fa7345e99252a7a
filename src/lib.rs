//! A stub of the WASI preview-1 system-call surface for guests that run
//! where no operating-system services exist. Every call either reports the
//! absence of a capability through an errno, reports an empty environment,
//! or traps.
pub mod abi;
pub mod memory;
pub mod syscalls;
pub mod table;

pub use abi::{Reply, Store32, Trap, ERRNO_BADF, ERRNO_INVAL, ERRNO_SUCCESS};
pub use memory::LinearMemory;
pub use syscalls::{
    env__exit, wasi_snapshot_preview1__environ_get, wasi_snapshot_preview1__environ_sizes_get,
    wasi_snapshot_preview1__fd_close, wasi_snapshot_preview1__fd_prestat_dir_name,
    wasi_snapshot_preview1__fd_prestat_get, wasi_snapshot_preview1__fd_read,
    wasi_snapshot_preview1__path_open, wasi_snapshot_preview1__proc_exit,
};
pub use table::{dispatch, Call};
