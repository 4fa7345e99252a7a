//! The call table: every entry point with its arguments as one value, the
//! outcome each call has, and what holds of all of them.
use vstd::prelude::*;

use crate::abi::{Reply, Store32, Trap, ERRNO_BADF, ERRNO_INVAL, ERRNO_SUCCESS};
use crate::memory::{in_bounds, le_bytes, run_stores, word_at, write_bytes};
use crate::syscalls::{
    empty_environ_stores, env__exit, wasi_snapshot_preview1__environ_get,
    wasi_snapshot_preview1__environ_sizes_get, wasi_snapshot_preview1__fd_close,
    wasi_snapshot_preview1__fd_prestat_dir_name, wasi_snapshot_preview1__fd_prestat_get,
    wasi_snapshot_preview1__fd_read, wasi_snapshot_preview1__path_open,
    wasi_snapshot_preview1__proc_exit,
};

verus! {

/// One call of an entry point, with its arguments.
#[derive(Clone, Copy, Debug, PartialEq, Eq, Structural)]
pub enum Call {
    ProcExit { code: u32 },
    Exit { code: u32 },
    EnvironSizesGet { length_ptr: usize, data_size_ptr: usize },
    EnvironGet { environ: usize, environ_buf: usize },
    FdClose { fd: usize },
    FdRead { fd: usize, iovs: usize, iovs_len: usize, nread: usize },
    PathOpen {
        dir_fd: usize,
        lookup_flags: usize,
        path: usize,
        path_len: usize,
        open_flags: usize,
        rights_base: u64,
        rights_inheriting: u64,
        fd_flags: usize,
        opened_fd: usize,
    },
    FdPrestatGet { fd: usize, prestat: usize },
    FdPrestatDirName { fd: usize, path: usize, path_len: usize },
}

/// Whether two calls go to the same entry point, whatever their arguments.
pub open spec fn same_entry(a: Call, b: Call) -> bool {
    match (a, b) {
        (Call::ProcExit { .. }, Call::ProcExit { .. }) => true,
        (Call::Exit { .. }, Call::Exit { .. }) => true,
        (Call::EnvironSizesGet { .. }, Call::EnvironSizesGet { .. }) => true,
        (Call::EnvironGet { .. }, Call::EnvironGet { .. }) => true,
        (Call::FdClose { .. }, Call::FdClose { .. }) => true,
        (Call::FdRead { .. }, Call::FdRead { .. }) => true,
        (Call::PathOpen { .. }, Call::PathOpen { .. }) => true,
        (Call::FdPrestatGet { .. }, Call::FdPrestatGet { .. }) => true,
        (Call::FdPrestatDirName { .. }, Call::FdPrestatDirName { .. }) => true,
        _ => false,
    }
}

/// The outcome of `call`: a trap, or the errno returned to the guest with
/// the stores asked of the host before it.
pub open spec fn outcome(call: Call) -> Result<(u16, Seq<Store32>), Trap> {
    match call {
        Call::ProcExit { .. } => Err(Trap),
        Call::Exit { .. } => Err(Trap),
        Call::EnvironSizesGet { length_ptr, data_size_ptr } => Ok(
            (ERRNO_SUCCESS, empty_environ_stores(length_ptr, data_size_ptr)),
        ),
        Call::EnvironGet { .. } => Ok((ERRNO_INVAL, Seq::empty())),
        Call::FdClose { .. } => Ok((ERRNO_BADF, Seq::empty())),
        Call::FdRead { .. } => Ok((ERRNO_BADF, Seq::empty())),
        Call::PathOpen { .. } => Ok((ERRNO_BADF, Seq::empty())),
        Call::FdPrestatGet { .. } => Ok((ERRNO_BADF, Seq::empty())),
        Call::FdPrestatDirName { .. } => Ok((ERRNO_BADF, Seq::empty())),
    }
}

/// Runs `call` through its entry point.
pub fn dispatch(call: Call) -> (r: Result<Reply, Trap>)
    ensures
        match r {
            Ok(reply) => outcome(call) == Ok::<(u16, Seq<Store32>), Trap>(
                (reply.errno, reply.stores@),
            ),
            Err(t) => outcome(call) == Err::<(u16, Seq<Store32>), Trap>(t),
        },
{
    match call {
        Call::ProcExit { code } => Err(wasi_snapshot_preview1__proc_exit(code).unwrap_err()),
        Call::Exit { code } => Err(env__exit(code).unwrap_err()),
        Call::EnvironSizesGet { length_ptr, data_size_ptr } => Ok(
            wasi_snapshot_preview1__environ_sizes_get(length_ptr, data_size_ptr),
        ),
        Call::EnvironGet { environ, environ_buf } => Ok(
            Reply::errno_only(wasi_snapshot_preview1__environ_get(environ, environ_buf)),
        ),
        Call::FdClose { fd } => Ok(Reply::errno_only(wasi_snapshot_preview1__fd_close(fd))),
        Call::FdRead { fd, iovs, iovs_len, nread } => Ok(
            Reply::errno_only(wasi_snapshot_preview1__fd_read(fd, iovs, iovs_len, nread)),
        ),
        Call::PathOpen {
            dir_fd,
            lookup_flags,
            path,
            path_len,
            open_flags,
            rights_base,
            rights_inheriting,
            fd_flags,
            opened_fd,
        } => Ok(
            Reply::errno_only(
                wasi_snapshot_preview1__path_open(
                    dir_fd,
                    lookup_flags,
                    path,
                    path_len,
                    open_flags,
                    rights_base,
                    rights_inheriting,
                    fd_flags,
                    opened_fd,
                ),
            ),
        ),
        Call::FdPrestatGet { fd, prestat } => Ok(
            Reply::errno_only(wasi_snapshot_preview1__fd_prestat_get(fd, prestat)),
        ),
        Call::FdPrestatDirName { fd, path, path_len } => Ok(
            Reply::errno_only(wasi_snapshot_preview1__fd_prestat_dir_name(fd, path, path_len)),
        ),
    }
}

/// Whether byte address `i` lies in the word at `ptr`.
pub open spec fn in_word(i: int, ptr: int) -> bool {
    ptr <= i < ptr + 4
}

proof fn lemma_zero_word_bytes()
    ensures
        le_bytes(0) == seq![0u8, 0u8, 0u8, 0u8],
{
    let z: u32 = 0;
    assert(z as u8 == 0 && (z >> 8) as u8 == 0 && (z >> 16) as u8 == 0 && (z >> 24) as u8 == 0)
        by (bit_vector)
        requires
            z == 0,
    ;
    assert(le_bytes(0) =~= seq![0u8, 0u8, 0u8, 0u8]);
}

/// The two stores of `environ_sizes_get`, carried out on a memory that holds
/// both words, complete and write a zero word at each address in turn.
proof fn lemma_empty_environ_stores_run(m: Seq<u8>, length_ptr: usize, data_size_ptr: usize)
    requires
        in_bounds(m.len(), length_ptr as int, 4),
        in_bounds(m.len(), data_size_ptr as int, 4),
    ensures
        run_stores(m, empty_environ_stores(length_ptr, data_size_ptr)) == (
            write_bytes(
                write_bytes(m, length_ptr as int, le_bytes(0)),
                data_size_ptr as int,
                le_bytes(0),
            ),
            true,
        ),
{
    let s = empty_environ_stores(length_ptr, data_size_ptr);
    let m1 = write_bytes(m, length_ptr as int, le_bytes(0));
    let m2 = write_bytes(m1, data_size_ptr as int, le_bytes(0));
    assert(s.drop_first() =~= seq![s[1]]);
    assert(seq![s[1]].drop_first() =~= Seq::<Store32>::empty());
    assert(run_stores(m2, Seq::<Store32>::empty()) == (m2, true));
    assert(run_stores(m1, seq![s[1]]) == run_stores(m2, Seq::<Store32>::empty()));
}

/// No argument changes what an entry point does: two calls of the same
/// entry point both trap, or both return the same errno and ask for the
/// same number of stores of the same values. Only the entry point that
/// reports the environment's sizes asks for any store at all.
pub proof fn lemma_arguments_never_change_outcome(a: Call, b: Call)
    requires
        same_entry(a, b),
    ensures
        outcome(a) is Err <==> outcome(b) is Err,
        outcome(a) is Ok ==> {
            &&& outcome(a)->Ok_0.0 == outcome(b)->Ok_0.0
            &&& outcome(a)->Ok_0.1.len() == outcome(b)->Ok_0.1.len()
            &&& forall|i: int|
                0 <= i < outcome(a)->Ok_0.1.len() ==> outcome(a)->Ok_0.1[i].value == outcome(
                    b,
                )->Ok_0.1[i].value
        },
        outcome(a) is Ok && !(a is EnvironSizesGet) ==> outcome(a)->Ok_0.1.len() == 0,
{
}

/// Given two output addresses that lie inside guest memory,
/// `environ_sizes_get` succeeds, and the stores it asks for complete and
/// leave a zero word at each of the two addresses and every other byte as
/// it was.
pub proof fn lemma_environ_sizes_get_writes_two_zero_words(
    m: Seq<u8>,
    length_ptr: usize,
    data_size_ptr: usize,
)
    requires
        in_bounds(m.len(), length_ptr as int, 4),
        in_bounds(m.len(), data_size_ptr as int, 4),
    ensures
        outcome(Call::EnvironSizesGet { length_ptr, data_size_ptr }) == Ok::<
            (u16, Seq<Store32>),
            Trap,
        >((ERRNO_SUCCESS, empty_environ_stores(length_ptr, data_size_ptr))),
        run_stores(m, empty_environ_stores(length_ptr, data_size_ptr)).1,
        run_stores(m, empty_environ_stores(length_ptr, data_size_ptr)).0.len() == m.len(),
        word_at(run_stores(m, empty_environ_stores(length_ptr, data_size_ptr)).0, length_ptr as int)
            == 0,
        word_at(
            run_stores(m, empty_environ_stores(length_ptr, data_size_ptr)).0,
            data_size_ptr as int,
        ) == 0,
        forall|i: int|
            0 <= i < m.len() ==> #[trigger] run_stores(
                m,
                empty_environ_stores(length_ptr, data_size_ptr),
            ).0[i] == if in_word(i, length_ptr as int) || in_word(i, data_size_ptr as int) {
                0u8
            } else {
                m[i]
            },
{
    lemma_zero_word_bytes();
    lemma_empty_environ_stores_run(m, length_ptr, data_size_ptr);
    let after = run_stores(m, empty_environ_stores(length_ptr, data_size_ptr)).0;
    let z: u8 = 0;
    assert(((z as u32) | ((z as u32) << 8) | ((z as u32) << 16) | ((z as u32) << 24)) == 0)
        by (bit_vector)
        requires
            z == 0,
    ;
    let a = length_ptr as int;
    let b = data_size_ptr as int;
    assert(after[a] == 0 && after[a + 1] == 0 && after[a + 2] == 0 && after[a + 3] == 0);
    assert(after[b] == 0 && after[b + 1] == 0 && after[b + 2] == 0 && after[b + 3] == 0);
}

/// No call leaves state that a later one could observe: once the host has
/// carried out a call to completion, the same call again has the same
/// outcome, completes again, and leaves guest memory as it found it.
pub proof fn lemma_repeated_call_changes_nothing(call: Call, m: Seq<u8>)
    ensures
        outcome(call) is Ok && run_stores(m, outcome(call)->Ok_0.1).1 ==> run_stores(
            run_stores(m, outcome(call)->Ok_0.1).0,
            outcome(call)->Ok_0.1,
        ) == run_stores(m, outcome(call)->Ok_0.1),
{
    if let Call::EnvironSizesGet { length_ptr, data_size_ptr } = call {
        let s = empty_environ_stores(length_ptr, data_size_ptr);
        if run_stores(m, s).1 {
            lemma_zero_word_bytes();
            let a = length_ptr as int;
            let b = data_size_ptr as int;
            if !in_bounds(m.len(), a, 4) {
                assert(!run_stores(m, s).1);
            }
            let m1 = write_bytes(m, a, le_bytes(0));
            if !in_bounds(m1.len(), b, 4) {
                assert(s.drop_first() =~= seq![s[1]]);
                assert(!run_stores(m1, s.drop_first()).1);
            }
            lemma_empty_environ_stores_run(m, length_ptr, data_size_ptr);
            let after = run_stores(m, s).0;
            lemma_empty_environ_stores_run(after, length_ptr, data_size_ptr);
            assert(write_bytes(after, a, le_bytes(0)) =~= after);
            assert(write_bytes(write_bytes(after, a, le_bytes(0)), b, le_bytes(0)) =~= after);
        }
    }
}

} // verus!
