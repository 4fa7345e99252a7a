use wasi_stub::{
    dispatch, env__exit, wasi_snapshot_preview1__environ_get,
    wasi_snapshot_preview1__environ_sizes_get, wasi_snapshot_preview1__fd_close,
    wasi_snapshot_preview1__fd_prestat_dir_name, wasi_snapshot_preview1__fd_prestat_get,
    wasi_snapshot_preview1__fd_read, wasi_snapshot_preview1__path_open,
    wasi_snapshot_preview1__proc_exit, Call, LinearMemory, Reply, Store32, Trap, ERRNO_BADF,
    ERRNO_INVAL, ERRNO_SUCCESS,
};

fn reply_of(call: Call) -> Reply {
    match dispatch(call) {
        Ok(reply) => reply,
        Err(t) => panic!("call {:?} trapped: {:?}", call, t),
    }
}

fn every_entry(arg: usize) -> Vec<Call> {
    vec![
        Call::ProcExit { code: arg as u32 },
        Call::Exit { code: arg as u32 },
        Call::EnvironSizesGet { length_ptr: arg, data_size_ptr: arg + 4 },
        Call::EnvironGet { environ: arg, environ_buf: arg },
        Call::FdClose { fd: arg },
        Call::FdRead { fd: arg, iovs: arg, iovs_len: arg, nread: arg },
        Call::PathOpen {
            dir_fd: arg,
            lookup_flags: arg,
            path: arg,
            path_len: arg,
            open_flags: arg,
            rights_base: arg as u64,
            rights_inheriting: arg as u64,
            fd_flags: arg,
            opened_fd: arg,
        },
        Call::FdPrestatGet { fd: arg, prestat: arg },
        Call::FdPrestatDirName { fd: arg, path: arg, path_len: arg },
    ]
}

#[test]
fn close_descriptor_ignores_its_argument() {
    assert_eq!(wasi_snapshot_preview1__fd_close(0), ERRNO_BADF);
    assert_eq!(wasi_snapshot_preview1__fd_close(1), ERRNO_BADF);
    assert_eq!(wasi_snapshot_preview1__fd_close(4294967295), ERRNO_BADF);
    assert_eq!(wasi_snapshot_preview1__fd_close(usize::MAX), ERRNO_BADF);
}

#[test]
fn fixed_failures_return_their_codes() {
    for a in [0usize, 1, 3, 1 << 20, usize::MAX] {
        assert_eq!(wasi_snapshot_preview1__environ_get(a, a), ERRNO_INVAL);
        assert_eq!(wasi_snapshot_preview1__fd_read(a, a, a, a), ERRNO_BADF);
        assert_eq!(wasi_snapshot_preview1__fd_prestat_get(a, a), ERRNO_BADF);
        assert_eq!(wasi_snapshot_preview1__fd_prestat_dir_name(a, a, a), ERRNO_BADF);
        assert_eq!(
            wasi_snapshot_preview1__path_open(a, a, a, a, a, a as u64, u64::MAX, a, a),
            ERRNO_BADF
        );
    }
}

#[test]
fn error_codes_are_the_wasi_values() {
    assert_eq!(ERRNO_SUCCESS, 0);
    assert_eq!(ERRNO_BADF, 8);
    assert_eq!(ERRNO_INVAL, 28);
}

#[test]
fn same_entry_same_outcome_for_any_arguments() {
    let low = every_entry(0);
    let high = every_entry(1000);
    for (a, b) in low.into_iter().zip(high) {
        match (dispatch(a), dispatch(b)) {
            (Err(x), Err(y)) => assert_eq!(x, y),
            (Ok(x), Ok(y)) => {
                assert_eq!(x.errno, y.errno);
                assert_eq!(x.stores.len(), y.stores.len());
                for (s, t) in x.stores.iter().zip(y.stores.iter()) {
                    assert_eq!(s.value, t.value);
                }
                if !matches!(a, Call::EnvironSizesGet { .. }) {
                    assert!(x.stores.is_empty());
                }
            }
            _ => panic!("{:?} and {:?} differ in whether they trap", a, b),
        }
    }
}

#[test]
fn environ_sizes_get_writes_two_zero_words() {
    let reply = wasi_snapshot_preview1__environ_sizes_get(100, 104);
    assert_eq!(reply.errno, ERRNO_SUCCESS);
    assert_eq!(
        reply.stores,
        vec![Store32 { ptr: 100, value: 0 }, Store32 { ptr: 104, value: 0 }]
    );
    let mut mem = LinearMemory::from_bytes(vec![0xAB; 128]);
    assert_eq!(mem.perform(&reply.stores), Ok(()));
    assert_eq!(mem.load32(100), Ok(0x0000_0000));
    assert_eq!(mem.load32(104), Ok(0x0000_0000));
    let bytes = mem.as_bytes();
    for (i, b) in bytes.iter().enumerate() {
        if (100..108).contains(&i) {
            assert_eq!(*b, 0, "byte {}", i);
        } else {
            assert_eq!(*b, 0xAB, "byte {}", i);
        }
    }
}

#[test]
fn environ_sizes_get_with_one_address_twice() {
    let reply = wasi_snapshot_preview1__environ_sizes_get(8, 8);
    let mut mem = LinearMemory::from_bytes(vec![0xFF; 16]);
    assert_eq!(mem.perform(&reply.stores), Ok(()));
    assert_eq!(
        mem.as_bytes().clone(),
        vec![0xFF, 0xFF, 0xFF, 0xFF, 0xFF, 0xFF, 0xFF, 0xFF, 0, 0, 0, 0, 0xFF, 0xFF, 0xFF, 0xFF]
    );
}

#[test]
fn environ_sizes_get_out_of_bounds_traps() {
    let reply = wasi_snapshot_preview1__environ_sizes_get(4, 8);
    let mut mem = LinearMemory::from_bytes(vec![0x11; 10]);
    assert_eq!(mem.perform(&reply.stores), Err(Trap));
    // The first word fits and was written before the host trapped.
    assert_eq!(
        mem.as_bytes().clone(),
        vec![0x11, 0x11, 0x11, 0x11, 0, 0, 0, 0, 0x11, 0x11]
    );

    let reply = wasi_snapshot_preview1__environ_sizes_get(usize::MAX - 1, 0);
    let mut mem = LinearMemory::from_bytes(vec![0x22; 8]);
    assert_eq!(mem.perform(&reply.stores), Err(Trap));
    assert_eq!(mem.as_bytes().clone(), vec![0x22; 8]);
}

#[test]
fn path_open_returns_bad_descriptor() {
    assert_eq!(
        wasi_snapshot_preview1__path_open(3, 1, 64, 12, 0, 0x1fff_ffff, 0x1fff_ffff, 0, 200),
        ERRNO_BADF
    );
    let reply = reply_of(Call::PathOpen {
        dir_fd: 3,
        lookup_flags: 1,
        path: 64,
        path_len: 12,
        open_flags: 0,
        rights_base: 0x1fff_ffff,
        rights_inheriting: 0x1fff_ffff,
        fd_flags: 0,
        opened_fd: 200,
    });
    assert_eq!(reply.errno, ERRNO_BADF);
    assert!(reply.stores.is_empty());
}

#[test]
fn exit_traps() {
    assert_eq!(env__exit(1), Err(Trap));
    assert_eq!(env__exit(0), Err(Trap));
    assert_eq!(env__exit(u32::MAX), Err(Trap));
    assert!(dispatch(Call::Exit { code: 1 }).is_err());
}

#[test]
fn proc_exit_traps() {
    assert_eq!(wasi_snapshot_preview1__proc_exit(0), Err(Trap));
    assert_eq!(wasi_snapshot_preview1__proc_exit(1), Err(Trap));
    assert_eq!(wasi_snapshot_preview1__proc_exit(u32::MAX), Err(Trap));
    assert!(dispatch(Call::ProcExit { code: 0 }).is_err());
}

#[test]
fn fd_read_leaves_the_buffer_alone() {
    // An iovec at 16 pointing to an 8-byte buffer at 32; the count goes to 48.
    let mut bytes = vec![0u8; 64];
    bytes[16..20].copy_from_slice(&32u32.to_le_bytes());
    bytes[20..24].copy_from_slice(&8u32.to_le_bytes());
    for b in &mut bytes[32..40] {
        *b = 0x5A;
    }
    let mut mem = LinearMemory::from_bytes(bytes.clone());
    assert_eq!(wasi_snapshot_preview1__fd_read(3, 16, 1, 48), ERRNO_BADF);
    let reply = reply_of(Call::FdRead { fd: 3, iovs: 16, iovs_len: 1, nread: 48 });
    assert_eq!(reply.errno, ERRNO_BADF);
    assert_eq!(mem.perform(&reply.stores), Ok(()));
    assert_eq!(mem.as_bytes().clone(), bytes);
}

#[test]
fn environ_get_and_prestat_calls() {
    assert_eq!(reply_of(Call::EnvironGet { environ: 0, environ_buf: 4 }).errno, ERRNO_INVAL);
    assert_eq!(reply_of(Call::FdPrestatGet { fd: 3, prestat: 8 }).errno, ERRNO_BADF);
    assert_eq!(
        reply_of(Call::FdPrestatDirName { fd: 3, path: 8, path_len: 16 }).errno,
        ERRNO_BADF
    );
    assert_eq!(reply_of(Call::FdClose { fd: 3 }).errno, ERRNO_BADF);
}

#[test]
fn repeated_calls_give_the_same_result() {
    for call in every_entry(20) {
        let mut mem = LinearMemory::from_bytes(vec![0x77; 64]);
        let first = dispatch(call);
        let second = dispatch(call);
        match (first, second) {
            (Err(x), Err(y)) => assert_eq!(x, y),
            (Ok(x), Ok(y)) => {
                assert_eq!(x.errno, y.errno);
                assert_eq!(x.stores, y.stores);
                assert_eq!(mem.perform(&x.stores), Ok(()));
                let after_first = mem.as_bytes().clone();
                assert_eq!(mem.perform(&y.stores), Ok(()));
                assert_eq!(mem.as_bytes().clone(), after_first);
            }
            _ => panic!("{:?} changed its outcome", call),
        }
    }
}

#[test]
fn memory_words_are_little_endian() {
    let mut mem = LinearMemory::from_bytes(vec![0; 8]);
    assert_eq!(mem.len(), 8);
    assert_eq!(mem.store32(2, 0x1122_3344), Ok(()));
    assert_eq!(mem.as_bytes().clone(), vec![0, 0, 0x44, 0x33, 0x22, 0x11, 0, 0]);
    assert_eq!(mem.load32(2), Ok(0x1122_3344));
    assert_eq!(mem.load32(1), Ok(0x2233_4400));
    assert_eq!(mem.load8(5), Ok(0x11));
    assert_eq!(mem.store8(7, 0xEE), Ok(()));
    assert_eq!(mem.load8(7), Ok(0xEE));
    assert_eq!(mem.load32(4), Ok(0xEE00_1122));
}

#[test]
fn memory_traps_out_of_bounds() {
    let mut mem = LinearMemory::from_bytes(vec![9; 8]);
    assert_eq!(mem.load8(8), Err(Trap));
    assert_eq!(mem.load32(5), Err(Trap));
    assert_eq!(mem.load32(usize::MAX), Err(Trap));
    assert_eq!(mem.store8(8, 1), Err(Trap));
    assert_eq!(mem.store32(5, 1), Err(Trap));
    assert_eq!(mem.store32(usize::MAX - 2, 1), Err(Trap));
    assert_eq!(mem.as_bytes().clone(), vec![9; 8]);
    assert_eq!(mem.load32(4), Ok(0x0909_0909));
}

#[test]
fn empty_memory_traps_on_every_access() {
    let mut mem = LinearMemory::from_bytes(Vec::new());
    assert_eq!(mem.len(), 0);
    assert_eq!(mem.load8(0), Err(Trap));
    assert_eq!(mem.store32(0, 0), Err(Trap));
    let reply = wasi_snapshot_preview1__environ_sizes_get(0, 0);
    assert_eq!(mem.perform(&reply.stores), Err(Trap));
}
