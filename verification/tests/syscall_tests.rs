use fake_kernel::abi::{ErrorCode, Registers, FAILURE_2_U32, SUCCESS_2_U32};
use fake_kernel::drivers::{PassthroughDriver, SwapDriver};
use fake_kernel::expectations::{ExpectedSyscall, FatalError, SyscallKind, SyscallLogEntry};
use fake_kernel::kernel::Kernel;
use fake_kernel::syscalls::{allow_ro, allow_rw, subscribe};

fn regs(r0: usize, r1: usize, r2: usize, r3: usize) -> Registers {
    Registers { r0, r1, r2, r3 }
}

#[test]
fn subscribe_empty_slot_echoes_zero() {
    let mut k = Kernel::new();
    assert!(k.add_driver(1, 2));
    let r = subscribe(&mut k, 1, 0, 0x1000, 42);
    assert_eq!(r, Ok(regs(SUCCESS_2_U32, 0, 0, 42)));
}

#[test]
fn subscribe_replacement_echoes_previous() {
    let mut k = Kernel::new();
    assert!(k.add_driver(1, 2));
    let r1 = subscribe(&mut k, 1, 0, 0x1000, 42);
    assert_eq!(r1, Ok(regs(SUCCESS_2_U32, 0, 0, 42)));
    let r2 = subscribe(&mut k, 1, 0, 0x2000, 7);
    assert_eq!(r2, Ok(regs(SUCCESS_2_U32, 0x1000, 42, 7)));
}

#[test]
fn subscribe_zero_clears_callback() {
    let mut k = Kernel::new();
    assert!(k.add_driver(1, 1));
    let r1 = subscribe(&mut k, 1, 0, 0, 5);
    assert_eq!(r1, Ok(regs(SUCCESS_2_U32, 0, 0, 5)));
    // The slot now holds a disabled callback with data 5: the next call gets
    // a zero callback reference but the stored data back.
    let r2 = subscribe(&mut k, 1, 0, 0x30, 6);
    assert_eq!(r2, Ok(regs(SUCCESS_2_U32, 0, 5, 6)));
}

#[test]
fn subscribe_unknown_driver_is_nomem() {
    let mut k = Kernel::new();
    assert!(k.add_driver(1, 2));
    let r = subscribe(&mut k, 9, 0, 0x1000, 1);
    assert_eq!(r, Ok(regs(FAILURE_2_U32, 9, 0x1000, 1)));
}

#[test]
fn allow_ro_unknown_driver_is_nodevice() {
    let mut k = Kernel::new();
    let mut d = PassthroughDriver::new();
    let r = allow_ro(&mut k, &mut d, 9, 0, 0x400, 16);
    assert_eq!(r, Ok(regs(FAILURE_2_U32, 11, 0x400, 16)));
}

#[test]
fn subscribe_slot_at_count_is_invalid() {
    let mut k = Kernel::new();
    assert!(k.add_driver(1, 2));
    // Slot 2 of a driver declaring 2 slots, with no expectation registered.
    let r = subscribe(&mut k, 1, 2, 0x1000, 3);
    assert_eq!(r, Ok(regs(FAILURE_2_U32, 6, 0x1000, 3)));
    let r = subscribe(&mut k, 1, 7, 0x1000, 4);
    assert_eq!(r, Ok(regs(FAILURE_2_U32, 6, 0x1000, 4)));
}

#[test]
fn overlapping_allow_is_fatal_and_regrant_succeeds() {
    let mut k = Kernel::new();
    assert!(k.add_driver(1, 1));
    let mut d = SwapDriver::new();
    // The swap driver keeps the new buffer and hands back the empty one it
    // held, so the range [100, 110) stays outstanding after the call.
    let r = allow_ro(&mut k, &mut d, 1, 0, 100, 10);
    assert_eq!(r, Ok(regs(SUCCESS_2_U32, 0, 0, 10)));
    // An overlapping second buffer is a harness-fatal condition.
    let r = allow_ro(&mut k, &mut d, 1, 0, 105, 10);
    assert_eq!(r, Err(FatalError::GrantOverlap { address: 105, len: 10 }));
    // A disjoint buffer swaps the outstanding one back out...
    let r = allow_ro(&mut k, &mut d, 1, 0, 200, 10);
    assert_eq!(r, Ok(regs(SUCCESS_2_U32, 100, 10, 10)));
    // ...after which the once-colliding range is granted.
    let r = allow_ro(&mut k, &mut d, 1, 0, 105, 10);
    assert_eq!(r, Ok(regs(SUCCESS_2_U32, 200, 10, 10)));
}

#[test]
fn ro_and_rw_grants_do_not_collide() {
    let mut k = Kernel::new();
    assert!(k.add_driver(1, 1));
    let mut d = SwapDriver::new();
    let r = allow_ro(&mut k, &mut d, 1, 0, 300, 8);
    assert_eq!(r, Ok(regs(SUCCESS_2_U32, 0, 0, 8)));
    // The same range as a read-write buffer lives in its own namespace.
    let r = allow_rw(&mut k, &mut d, 1, 0, 300, 8);
    assert_eq!(r, Ok(regs(SUCCESS_2_U32, 0, 0, 8)));
    // But a second outstanding read-write overlap is fatal.
    let r = allow_rw(&mut k, &mut d, 1, 0, 304, 8);
    assert_eq!(r, Err(FatalError::GrantOverlap { address: 304, len: 8 }));
}

#[test]
fn resubscribe_purges_pending_deliveries() {
    let mut k = Kernel::new();
    assert!(k.add_driver(1, 2));
    let r = subscribe(&mut k, 1, 0, 0x1000, 42);
    assert_eq!(r, Ok(regs(SUCCESS_2_U32, 0, 0, 42)));
    k.schedule_upcall(1, 0, 10, 11, 12);
    k.schedule_upcall(1, 0, 20, 21, 22);
    k.schedule_upcall(1, 1, 30, 31, 32);
    assert_eq!(k.upcall_queue.len(), 3);
    let r = subscribe(&mut k, 1, 0, 0x2000, 7);
    assert_eq!(r, Ok(regs(SUCCESS_2_U32, 0x1000, 42, 7)));
    // Every delivery for (1, 0) is gone; the (1, 1) delivery survives.
    assert_eq!(k.upcall_queue.len(), 1);
    assert_eq!(k.upcall_queue[0].id.driver_number, 1);
    assert_eq!(k.upcall_queue[0].id.subscribe_number, 1);
    assert_eq!(k.upcall_queue[0].arg0, 30);
}

#[test]
fn expectations_match_in_fifo_order() {
    let mut k = Kernel::new();
    assert!(k.add_driver(1, 2));
    k.expect_syscall(ExpectedSyscall::Subscribe {
        driver_number: 1,
        subscribe_number: 0,
        skip_with_error: None,
    });
    k.expect_syscall(ExpectedSyscall::Subscribe {
        driver_number: 1,
        subscribe_number: 1,
        skip_with_error: None,
    });
    let r = subscribe(&mut k, 1, 0, 0x10, 1);
    assert_eq!(r, Ok(regs(SUCCESS_2_U32, 0, 0, 1)));
    let r = subscribe(&mut k, 1, 1, 0x20, 2);
    assert_eq!(r, Ok(regs(SUCCESS_2_U32, 0, 0, 2)));
    assert_eq!(k.expected_syscalls.len(), 0);
}

#[test]
fn out_of_order_call_names_front_expectation() {
    let mut k = Kernel::new();
    assert!(k.add_driver(1, 2));
    k.expect_syscall(ExpectedSyscall::Subscribe {
        driver_number: 1,
        subscribe_number: 0,
        skip_with_error: None,
    });
    k.expect_syscall(ExpectedSyscall::Subscribe {
        driver_number: 1,
        subscribe_number: 1,
        skip_with_error: None,
    });
    // Issuing the second call first is refused, naming the front
    // expectation's field as expected and the call's as actual.
    let r = subscribe(&mut k, 1, 1, 0x20, 2);
    assert_eq!(r, Err(FatalError::WrongSubscribeNumber { expected: 0, actual: 1 }));
}

#[test]
fn wrong_kind_call_names_both_kinds() {
    let mut k = Kernel::new();
    assert!(k.add_driver(1, 2));
    k.expect_syscall(ExpectedSyscall::AllowRo {
        driver_number: 1,
        buffer_number: 0,
        return_error: None,
    });
    let r = subscribe(&mut k, 1, 0, 0x10, 1);
    assert_eq!(
        r,
        Err(FatalError::WrongCallKind {
            expected_kind: SyscallKind::AllowRo,
            actual_kind: SyscallKind::Subscribe,
        })
    );
}

#[test]
fn injected_subscribe_error_skips_the_call() {
    let mut k = Kernel::new();
    assert!(k.add_driver(1, 2));
    k.expect_syscall(ExpectedSyscall::Subscribe {
        driver_number: 1,
        subscribe_number: 0,
        skip_with_error: Some(ErrorCode::Busy),
    });
    let r = subscribe(&mut k, 1, 0, 77, 88);
    assert_eq!(r, Ok(regs(FAILURE_2_U32, 2, 77, 88)));
    // The slot was never written: the next subscribe sees it empty.
    let r = subscribe(&mut k, 1, 0, 0x50, 9);
    assert_eq!(r, Ok(regs(SUCCESS_2_U32, 0, 0, 9)));
}

#[test]
fn injected_allow_error_echoes_original_buffer() {
    let mut k = Kernel::new();
    assert!(k.add_driver(1, 1));
    let mut d = SwapDriver::new();
    k.expect_syscall(ExpectedSyscall::AllowRo {
        driver_number: 1,
        buffer_number: 3,
        return_error: Some(ErrorCode::Fail),
    });
    let r = allow_ro(&mut k, &mut d, 1, 3, 500, 20);
    assert_eq!(r, Ok(regs(FAILURE_2_U32, 1, 500, 20)));
    // The buffer was never granted, so the same range is free afterwards.
    let r = allow_ro(&mut k, &mut d, 1, 3, 500, 20);
    assert_eq!(r, Ok(regs(SUCCESS_2_U32, 0, 0, 20)));
}

#[test]
fn driver_allow_error_is_encoded() {
    let mut k = Kernel::new();
    assert!(k.add_driver(1, 1));
    let mut d = PassthroughDriver::failing(ErrorCode::Size);
    let r = allow_ro(&mut k, &mut d, 1, 0, 600, 24);
    assert_eq!(r, Ok(regs(FAILURE_2_U32, 7, 600, 24)));
    // The driver handed the buffer back, so its range is free again.
    let mut ok = PassthroughDriver::new();
    let r = allow_ro(&mut k, &mut ok, 1, 0, 600, 24);
    assert_eq!(r, Ok(regs(SUCCESS_2_U32, 600, 24, 24)));
}

#[test]
fn syscall_log_records_every_call() {
    let mut k = Kernel::new();
    assert!(k.add_driver(1, 2));
    let mut d = PassthroughDriver::new();
    let _ = subscribe(&mut k, 1, 0, 0x10, 1);
    let _ = allow_ro(&mut k, &mut d, 9, 4, 700, 8);
    let _ = subscribe(&mut k, 9, 0, 0x20, 2);
    assert_eq!(
        k.syscall_log,
        vec![
            SyscallLogEntry::Subscribe { driver_number: 1, subscribe_number: 0 },
            SyscallLogEntry::AllowRo { driver_number: 9, buffer_number: 4, len: 8 },
            SyscallLogEntry::Subscribe { driver_number: 9, subscribe_number: 0 },
        ]
    );
}

#[test]
fn oversized_identifier_is_fatal() {
    if usize::MAX as u128 > u32::MAX as u128 {
        let mut k = Kernel::new();
        assert!(k.add_driver(1, 2));
        let big = (u32::MAX as usize) + 1;
        let r = subscribe(&mut k, big, 0, 0x10, 1);
        assert_eq!(r, Err(FatalError::TooLargeDriverNumber { value: big }));
        let r = subscribe(&mut k, 1, big, 0x10, 1);
        assert_eq!(r, Err(FatalError::TooLargeSubscribeNumber { value: big }));
        let mut d = PassthroughDriver::new();
        let r = allow_ro(&mut k, &mut d, 1, big, 0x10, 1);
        assert_eq!(r, Err(FatalError::TooLargeBufferNumber { value: big }));
        // Nothing was logged for the refused calls.
        assert_eq!(k.syscall_log.len(), 0);
    }
}

#[test]
fn wrong_driver_number_names_both() {
    let mut k = Kernel::new();
    assert!(k.add_driver(1, 2));
    assert!(k.add_driver(2, 2));
    k.expect_syscall(ExpectedSyscall::Subscribe {
        driver_number: 1,
        subscribe_number: 0,
        skip_with_error: None,
    });
    let r = subscribe(&mut k, 2, 0, 0x10, 1);
    assert_eq!(r, Err(FatalError::WrongDriverNumber { expected: 1, actual: 2 }));
}

#[test]
fn wrong_buffer_number_names_both() {
    let mut k = Kernel::new();
    assert!(k.add_driver(1, 1));
    let mut d = PassthroughDriver::new();
    k.expect_syscall(ExpectedSyscall::AllowRo {
        driver_number: 1,
        buffer_number: 2,
        return_error: None,
    });
    let r = allow_ro(&mut k, &mut d, 1, 3, 0x100, 4);
    assert_eq!(r, Err(FatalError::WrongBufferNumber { expected: 2, actual: 3 }));
}

#[test]
fn matched_allow_rw_expectation_injects_error() {
    let mut k = Kernel::new();
    assert!(k.add_driver(1, 1));
    let mut d = PassthroughDriver::new();
    k.expect_syscall(ExpectedSyscall::AllowRw {
        driver_number: 1,
        buffer_number: 0,
        return_error: Some(ErrorCode::NoSupport),
    });
    let r = allow_rw(&mut k, &mut d, 1, 0, 0x200, 12);
    assert_eq!(r, Ok(regs(FAILURE_2_U32, 10, 0x200, 12)));
    // A matched expectation with no injected error lets the call proceed.
    k.expect_syscall(ExpectedSyscall::AllowRw {
        driver_number: 1,
        buffer_number: 0,
        return_error: None,
    });
    let r = allow_rw(&mut k, &mut d, 1, 0, 0x200, 12);
    assert_eq!(r, Ok(regs(SUCCESS_2_U32, 0x200, 12, 12)));
}

#[test]
fn duplicate_driver_number_is_refused() {
    let mut k = Kernel::new();
    assert!(k.add_driver(1, 2));
    assert!(!k.add_driver(1, 5));
    assert!(k.add_driver(2, 1));
}
