use fake_kernel::abi::{ErrorCode, Registers, FAILURE_2_U32, SUCCESS_2_U32};
use fake_kernel::grants::{AllowDb, OverlapError, RoGrant};
use fake_kernel::kernel::Kernel;
use fake_kernel::syscalls::{allow_ro_begin, allow_ro_finish, AllowRoStep};

#[test]
fn grant_database_refuses_overlap() {
    let mut db = AllowDb::new();
    let g1 = db.insert_ro_buffer(100, 10).unwrap();
    assert_eq!(g1, RoGrant { address: 100, len: 10 });
    // Overlapping the live grant from either side is refused.
    assert_eq!(db.insert_ro_buffer(105, 10), Err(OverlapError));
    assert_eq!(db.insert_ro_buffer(95, 6), Err(OverlapError));
    // Touching ranges do not overlap: [110, 120) starts where g1 ends.
    let g2 = db.insert_ro_buffer(110, 10).unwrap();
    // Once g1 is retired its range is free again.
    assert_eq!(db.remove_ro_buffer(g1), (100, 10));
    let g3 = db.insert_ro_buffer(105, 5).unwrap();
    assert_eq!(g3, RoGrant { address: 105, len: 5 });
    assert_eq!(db.remove_ro_buffer(g2), (110, 10));
    assert_eq!(db.remove_ro_buffer(g3), (105, 5));
}

#[test]
fn empty_buffers_never_overlap() {
    let mut db = AllowDb::new();
    let g1 = db.insert_ro_buffer(100, 10).unwrap();
    // A zero-length buffer shares no address with anything.
    let g2 = db.insert_ro_buffer(105, 0).unwrap();
    let g3 = db.insert_ro_buffer(105, 0).unwrap();
    assert_eq!(db.remove_ro_buffer(g2), (105, 0));
    assert_eq!(db.remove_ro_buffer(g1), (100, 10));
    assert_eq!(db.remove_ro_buffer(g3), (105, 0));
}

#[test]
fn rw_namespace_is_separate() {
    let mut db = AllowDb::new();
    let _ro = db.insert_ro_buffer(100, 10).unwrap();
    // The same range is free in the read-write namespace.
    let rw = db.insert_rw_buffer(100, 10).unwrap();
    assert_eq!(db.insert_rw_buffer(100, 10), Err(OverlapError));
    assert_eq!(db.remove_rw_buffer(rw), (100, 10));
}

#[test]
fn split_allow_phases_compose() {
    let mut k = Kernel::new();
    assert!(k.add_driver(1, 1));
    // First half: decode, log, expectation, driver lookup, grant.
    let step = allow_ro_begin(&mut k, 1, 0, 800, 32);
    let grant = match step {
        AllowRoStep::Granted(g) => g,
        other => panic!("expected a granted buffer, got {:?}", other),
    };
    assert_eq!(grant, RoGrant { address: 800, len: 32 });
    // The harness plays the driver here and hands the same buffer back.
    let r = allow_ro_finish(&mut k, Ok(grant), 32);
    assert_eq!(r, Registers { r0: SUCCESS_2_U32, r1: 800, r2: 32, r3: 32 });
    // The driver can instead return the buffer with an error code.
    let step = allow_ro_begin(&mut k, 1, 0, 800, 32);
    let grant = match step {
        AllowRoStep::Granted(g) => g,
        other => panic!("expected a granted buffer, got {:?}", other),
    };
    let r = allow_ro_finish(&mut k, Err((grant, ErrorCode::Cancel)), 32);
    assert_eq!(r, Registers { r0: FAILURE_2_U32, r1: 8, r2: 800, r3: 32 });
}

#[test]
fn begin_finishes_early_without_driver() {
    let mut k = Kernel::new();
    let step = allow_ro_begin(&mut k, 5, 2, 900, 16);
    // NoDevice, echoing the caller's own address and length.
    assert_eq!(
        step,
        AllowRoStep::Finished(Registers { r0: FAILURE_2_U32, r1: 11, r2: 900, r3: 16 })
    );
}
