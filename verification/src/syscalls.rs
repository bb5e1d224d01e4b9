//! The syscall handlers: the entry points a simulated syscall reaches with
//! raw register values.
//!
//! Every handler runs the same life cycle against the kernel data store:
//! decode the identifier registers, log the call, match it against the front
//! of the expected-syscall queue, dispatch, update kernel state and encode
//! the return registers.  Protocol errors come back through the register
//! encoding; harness-fatal conditions come back as a [`FatalError`].

use vstd::prelude::*;
use crate::abi::{
    failure2,
    fits_u32,
    check_fits_u32,
    make_failure2,
    ErrorCode,
    Registers,
    SUCCESS_2_U32,
};
use crate::expectations::{expected_kind, kind_of, ExpectedSyscall, FatalError, SyscallKind,
    SyscallLogEntry};
use crate::drivers::SyscallDriver;
use crate::grants::{range_free, remove_first, RoGrant, RwGrant};
use crate::kernel::{driver_eq, drivers_eq, Kernel};
use crate::upcalls::{purge_queue, purged, Upcall, UpcallId};

verus! {

/// Two kernels hold the same state.
pub open spec fn kernel_unchanged(a: Kernel, b: Kernel) -> bool {
    &&& a.syscall_log@ == b.syscall_log@
    &&& a.expected_syscalls@ == b.expected_syscalls@
    &&& a.allow_db.ro@ == b.allow_db.ro@
    &&& a.allow_db.rw@ == b.allow_db.rw@
    &&& drivers_eq(a.drivers@, b.drivers@)
    &&& a.upcall_queue@ == b.upcall_queue@
}

/// The expected-syscall queue once its front entry is consumed; an empty
/// queue stays empty, and is not an error.
pub open spec fn popped(q: Seq<ExpectedSyscall>) -> Seq<ExpectedSyscall> {
    if q.len() == 0 {
        q
    } else {
        q.skip(1)
    }
}

/// The harness-fatal mismatch, if any, that a Subscribe call with the given
/// identifiers raises against the front of the expectation queue: a
/// different expected kind, or a matching kind with different identifying
/// fields, each naming the expected and the actual value.
pub open spec fn sub_expect_fatal(q: Seq<ExpectedSyscall>, dn: u32, sn: u32) -> Option<
    FatalError,
> {
    if q.len() == 0 {
        None
    } else {
        match q[0] {
            ExpectedSyscall::Subscribe { driver_number, subscribe_number, skip_with_error } => {
                if driver_number != dn {
                    Some(FatalError::WrongDriverNumber { expected: driver_number, actual: dn })
                } else if subscribe_number != sn {
                    Some(
                        FatalError::WrongSubscribeNumber {
                            expected: subscribe_number,
                            actual: sn,
                        },
                    )
                } else {
                    None
                }
            },
            e => Some(
                FatalError::WrongCallKind { expected_kind: kind_of(e), actual_kind: SyscallKind::Subscribe },
            ),
        }
    }
}

/// The injected error, if any, a matching front expectation tells a
/// Subscribe call to fail with instead of doing its work.
pub open spec fn sub_skip_error(q: Seq<ExpectedSyscall>, dn: u32, sn: u32) -> Option<ErrorCode> {
    if q.len() == 0 {
        None
    } else {
        match q[0] {
            ExpectedSyscall::Subscribe { driver_number, subscribe_number, skip_with_error } => {
                if driver_number == dn && subscribe_number == sn {
                    skip_with_error
                } else {
                    None
                }
            },
            _ => None,
        }
    }
}

/// The upcall a Subscribe call installs: the zero register value means "no
/// callback", any other value is taken as a callback reference.
pub open spec fn new_upcall(upcall_fn: usize, data: usize) -> Upcall {
    Upcall {
        fn_pointer: if upcall_fn == 0 {
            None
        } else {
            Some(upcall_fn)
        },
        data,
    }
}

/// The register value standing for the callback reference a slot held
/// before: 0 for an empty slot or a disabled callback.
pub open spec fn prev_fn_value(prev: Option<Upcall>) -> usize {
    match prev {
        None => 0,
        Some(u) => match u.fn_pointer {
            None => 0,
            Some(f) => f,
        },
    }
}

/// The register value standing for the opaque data a slot held before: 0
/// for an empty slot.
pub open spec fn prev_data_value(prev: Option<Upcall>) -> usize {
    match prev {
        None => 0,
        Some(u) => u.data,
    }
}

/// The state and return of a successful Subscribe: every pending delivery
/// for the replaced subscription purged, the new upcall installed, and the
/// previous callback reference and data echoed back, with the caller's new
/// data passed through the fourth register.
pub open spec fn subscribe_success_post(
    k: Kernel,
    post: Kernel,
    dn: u32,
    sn: u32,
    upcall_fn: usize,
    data: usize,
    r: Result<Registers, FatalError>,
) -> bool {
    let i = k.driver_index(dn);
    let prev = k.slot(dn, sn);
    &&& r == Ok::<Registers, FatalError>(
        Registers {
            r0: SUCCESS_2_U32,
            r1: prev_fn_value(prev),
            r2: prev_data_value(prev),
            r3: data,
        },
    )
    &&& post.upcall_queue@ == purged(
        k.upcall_queue@,
        UpcallId { driver_number: dn, subscribe_number: sn },
    )
    &&& post.drivers@.len() == k.drivers@.len()
    &&& forall|j: int|
        0 <= j < k.drivers@.len() && j != i ==> driver_eq(
            #[trigger] post.drivers@[j],
            k.drivers@[j],
        )
    &&& post.drivers@[i].driver_number == dn
    &&& post.drivers@[i].num_upcalls == k.drivers@[i].num_upcalls
    &&& post.drivers@[i].upcalls@ == k.drivers@[i].upcalls@.update(
        sn as int,
        Some(new_upcall(upcall_fn, data)),
    )
}

/// Everything a Subscribe call with successfully decoded identifiers does:
/// the call is logged, the front expectation is consumed and matched, and
/// the call then either raises the mismatch as fatal, fails with the
/// injected error, fails with `NoMem` for a missing driver (the kernel's
/// historical choice for Subscribe, deliberately not `NoDevice`), fails
/// with `Invalid` for a slot at or past the declared count, or succeeds.
pub open spec fn subscribe_decoded_post(
    k: Kernel,
    post: Kernel,
    dn: u32,
    sn: u32,
    upcall_fn: usize,
    data: usize,
    r: Result<Registers, FatalError>,
) -> bool {
    &&& post.syscall_log@ == k.syscall_log@.push(
        SyscallLogEntry::Subscribe { driver_number: dn, subscribe_number: sn },
    )
    &&& post.expected_syscalls@ == popped(k.expected_syscalls@)
    &&& post.allow_db.ro@ == k.allow_db.ro@
    &&& post.allow_db.rw@ == k.allow_db.rw@
    &&& match sub_expect_fatal(k.expected_syscalls@, dn, sn) {
        Some(f) => r == Err::<Registers, FatalError>(f) && drivers_eq(post.drivers@, k.drivers@) && post.upcall_queue@
            == k.upcall_queue@,
        None => match sub_skip_error(k.expected_syscalls@, dn, sn) {
            Some(ec) => r == Ok::<Registers, FatalError>(failure2(ec, upcall_fn, data)) && drivers_eq(
                post.drivers@,
                k.drivers@,
            ) && post.upcall_queue@ == k.upcall_queue@,
            None => {
                if !k.has_driver(dn) {
                    r == Ok::<Registers, FatalError>(failure2(ErrorCode::NoMem, upcall_fn, data)) && drivers_eq(
                        post.drivers@,
                        k.drivers@,
                    ) && post.upcall_queue@ == k.upcall_queue@
                } else if sn >= k.driver_num_upcalls(dn) {
                    r == Ok::<Registers, FatalError>(failure2(ErrorCode::Invalid, upcall_fn, data)) && drivers_eq(
                        post.drivers@,
                        k.drivers@,
                    ) && post.upcall_queue@ == k.upcall_queue@
                } else {
                    subscribe_success_post(k, post, dn, sn, upcall_fn, data, r)
                }
            },
        },
    }
}

/// The Subscribe handler: registers or replaces the upcall of one
/// (driver, slot) pair from raw register arguments, and encodes the
/// previous occupant into the return registers.
pub fn subscribe(
    kernel: &mut Kernel,
    driver_number: usize,
    subscribe_number: usize,
    upcall_fn: usize,
    data: usize,
) -> (r: Result<Registers, FatalError>)
    requires
        old(kernel).wf(),
    ensures
        final(kernel).wf(),
        !fits_u32(driver_number) ==> r == Err::<Registers, FatalError>(
            FatalError::TooLargeDriverNumber { value: driver_number },
        ) && kernel_unchanged(*old(kernel), *final(kernel)),
        fits_u32(driver_number) && !fits_u32(subscribe_number) ==> r == Err::<Registers, FatalError>(
            FatalError::TooLargeSubscribeNumber { value: subscribe_number },
        ) && kernel_unchanged(*old(kernel), *final(kernel)),
        fits_u32(driver_number) && fits_u32(subscribe_number) ==> subscribe_decoded_post(
            *old(kernel),
            *final(kernel),
            driver_number as u32,
            subscribe_number as u32,
            upcall_fn,
            data,
            r,
        ),
{
    if !check_fits_u32(driver_number) {
        return Err(FatalError::TooLargeDriverNumber { value: driver_number });
    }
    if !check_fits_u32(subscribe_number) {
        return Err(FatalError::TooLargeSubscribeNumber { value: subscribe_number });
    }
    let dn = driver_number as u32;
    let sn = subscribe_number as u32;

    kernel.syscall_log.push(
        SyscallLogEntry::Subscribe { driver_number: dn, subscribe_number: sn },
    );

    // Consume and match the front expectation; the mismatch diagnostics name
    // both the expected and the actual value.
    let skip_with_error: Option<ErrorCode>;
    if kernel.expected_syscalls.len() > 0 {
        let e = kernel.expected_syscalls.remove(0);
        match e {
            ExpectedSyscall::Subscribe {
                driver_number: expected_dn,
                subscribe_number: expected_sn,
                skip_with_error: swe,
            } => {
                if expected_dn != dn {
                    return Err(
                        FatalError::WrongDriverNumber { expected: expected_dn, actual: dn },
                    );
                }
                if expected_sn != sn {
                    return Err(
                        FatalError::WrongSubscribeNumber { expected: expected_sn, actual: sn },
                    );
                }
                skip_with_error = swe;
            },
            other => {
                return Err(
                    FatalError::WrongCallKind {
                        expected_kind: expected_kind(&other),
                        actual_kind: SyscallKind::Subscribe,
                    },
                );
            },
        }
    } else {
        skip_with_error = None;
    }

    // An injected error skips the rest of the call.
    if let Some(ec) = skip_with_error {
        return Ok(make_failure2(ec, upcall_fn, data));
    }

    // A missing driver fails with NoMem; a slot at or past the declared
    // count fails with Invalid.  Both happen with or without expectations.
    let idx = match kernel.find_driver(dn) {
        Some(idx) => idx,
        None => {
            return Ok(make_failure2(ErrorCode::NoMem, upcall_fn, data));
        },
    };
    let num_upcalls = kernel.drivers[idx].num_upcalls;
    if sn >= num_upcalls {
        return Ok(make_failure2(ErrorCode::Invalid, upcall_fn, data));
    }

    // The call succeeds: purge stale deliveries for this subscription, then
    // install the new upcall and recover the previous occupant.
    let id = UpcallId { driver_number: dn, subscribe_number: sn };
    purge_queue(&mut kernel.upcall_queue, id);

    let upcall = Upcall {
        fn_pointer: if upcall_fn == 0 {
            None
        } else {
            Some(upcall_fn)
        },
        data,
    };
    let driver_data = &mut kernel.drivers[idx];
    let slot = &mut driver_data.upcalls[sn as usize];
    let prev: Option<Upcall> = *slot;
    *slot = Some(upcall);

    let prev_fn: usize = match prev {
        None => 0,
        Some(p) => match p.fn_pointer {
            None => 0,
            Some(f) => f,
        },
    };
    let prev_data: usize = match prev {
        None => 0,
        Some(p) => p.data,
    };

    Ok(Registers { r0: SUCCESS_2_U32, r1: prev_fn, r2: prev_data, r3: data })
}

/// The harness-fatal mismatch, if any, that a Read-Only Allow call with the
/// given identifiers raises against the front of the expectation queue.
pub open spec fn allow_ro_expect_fatal(q: Seq<ExpectedSyscall>, dn: u32, bn: u32) -> Option<
    FatalError,
> {
    if q.len() == 0 {
        None
    } else {
        match q[0] {
            ExpectedSyscall::AllowRo { driver_number, buffer_number, return_error } => {
                if driver_number != dn {
                    Some(FatalError::WrongDriverNumber { expected: driver_number, actual: dn })
                } else if buffer_number != bn {
                    Some(FatalError::WrongBufferNumber { expected: buffer_number, actual: bn })
                } else {
                    None
                }
            },
            e => Some(
                FatalError::WrongCallKind { expected_kind: kind_of(e), actual_kind: SyscallKind::AllowRo },
            ),
        }
    }
}

/// The injected error, if any, a matching front expectation tells a
/// Read-Only Allow call to fail with.
pub open spec fn allow_ro_return_error(q: Seq<ExpectedSyscall>, dn: u32, bn: u32) -> Option<
    ErrorCode,
> {
    if q.len() == 0 {
        None
    } else {
        match q[0] {
            ExpectedSyscall::AllowRo { driver_number, buffer_number, return_error } => {
                if driver_number == dn && buffer_number == bn {
                    return_error
                } else {
                    None
                }
            },
            _ => None,
        }
    }
}

/// What the first, in-kernel half of a Read-Only Allow leaves behind: a
/// harness-fatal condition, a finished (failure) return, or a granted
/// buffer awaiting the driver.
#[derive(Clone, Copy, Debug, PartialEq, Eq)]
pub enum AllowRoStep {
    Fatal(FatalError),
    Finished(Registers),
    Granted(RoGrant),
}

/// Everything the first half of a Read-Only Allow with successfully decoded
/// identifiers does: the call is logged, the front expectation is consumed
/// and matched, and the call then raises the mismatch as fatal, finishes at
/// once with the injected error or with `NoDevice` for a missing driver
/// (echoing the caller's own address and length), raises an overlapping
/// buffer as fatal, or grants the buffer.
pub open spec fn allow_ro_begin_post(
    k: Kernel,
    post: Kernel,
    dn: u32,
    bn: u32,
    address: usize,
    len: usize,
    r: AllowRoStep,
) -> bool {
    &&& post.syscall_log@ == k.syscall_log@.push(
        SyscallLogEntry::AllowRo { driver_number: dn, buffer_number: bn, len },
    )
    &&& post.expected_syscalls@ == popped(k.expected_syscalls@)
    &&& post.allow_db.rw@ == k.allow_db.rw@
    &&& drivers_eq(post.drivers@, k.drivers@)
    &&& post.upcall_queue@ == k.upcall_queue@
    &&& match allow_ro_expect_fatal(k.expected_syscalls@, dn, bn) {
        Some(f) => r == AllowRoStep::Fatal(f) && post.allow_db.ro@ == k.allow_db.ro@,
        None => match allow_ro_return_error(k.expected_syscalls@, dn, bn) {
            Some(ec) => r == AllowRoStep::Finished(failure2(ec, address, len))
                && post.allow_db.ro@ == k.allow_db.ro@,
            None => {
                if !k.has_driver(dn) {
                    r == AllowRoStep::Finished(failure2(ErrorCode::NoDevice, address, len))
                        && post.allow_db.ro@ == k.allow_db.ro@
                } else if !range_free(k.allow_db.ro@, address, len) {
                    r == AllowRoStep::Fatal(FatalError::GrantOverlap { address, len })
                        && post.allow_db.ro@ == k.allow_db.ro@
                } else {
                    r == AllowRoStep::Granted(RoGrant { address, len }) && post.allow_db.ro@
                        == k.allow_db.ro@.push((address, len))
                }
            },
        },
    }
}

/// The first half of a Read-Only Allow, run under exclusive kernel access:
/// decode, log, match the expectation, resolve the driver and grant the
/// buffer.  The caller then invokes the driver outside the kernel and hands
/// its answer to [`allow_ro_finish`].
pub fn allow_ro_begin(
    kernel: &mut Kernel,
    driver_number: usize,
    buffer_number: usize,
    address: usize,
    len: usize,
) -> (r: AllowRoStep)
    requires
        old(kernel).wf(),
    ensures
        final(kernel).wf(),
        !fits_u32(driver_number) ==> r == AllowRoStep::Fatal(
            FatalError::TooLargeDriverNumber { value: driver_number },
        ) && kernel_unchanged(*old(kernel), *final(kernel)),
        fits_u32(driver_number) && !fits_u32(buffer_number) ==> r == AllowRoStep::Fatal(
            FatalError::TooLargeBufferNumber { value: buffer_number },
        ) && kernel_unchanged(*old(kernel), *final(kernel)),
        fits_u32(driver_number) && fits_u32(buffer_number) ==> allow_ro_begin_post(
            *old(kernel),
            *final(kernel),
            driver_number as u32,
            buffer_number as u32,
            address,
            len,
            r,
        ),
        r is Granted ==> fits_u32(driver_number) && fits_u32(buffer_number),
{
    if !check_fits_u32(driver_number) {
        return AllowRoStep::Fatal(FatalError::TooLargeDriverNumber { value: driver_number });
    }
    if !check_fits_u32(buffer_number) {
        return AllowRoStep::Fatal(FatalError::TooLargeBufferNumber { value: buffer_number });
    }
    let dn = driver_number as u32;
    let bn = buffer_number as u32;

    kernel.syscall_log.push(
        SyscallLogEntry::AllowRo { driver_number: dn, buffer_number: bn, len },
    );

    let return_error: Option<ErrorCode>;
    if kernel.expected_syscalls.len() > 0 {
        let e = kernel.expected_syscalls.remove(0);
        match e {
            ExpectedSyscall::AllowRo {
                driver_number: expected_dn,
                buffer_number: expected_bn,
                return_error: re,
            } => {
                if expected_dn != dn {
                    return AllowRoStep::Fatal(
                        FatalError::WrongDriverNumber { expected: expected_dn, actual: dn },
                    );
                }
                if expected_bn != bn {
                    return AllowRoStep::Fatal(
                        FatalError::WrongBufferNumber { expected: expected_bn, actual: bn },
                    );
                }
                return_error = re;
            },
            other => {
                return AllowRoStep::Fatal(
                    FatalError::WrongCallKind {
                        expected_kind: expected_kind(&other),
                        actual_kind: SyscallKind::AllowRo,
                    },
                );
            },
        }
    } else {
        return_error = None;
    }

    // An injected error finishes the call at once; the buffer was never
    // granted, so the caller's own address and length are echoed back.
    if let Some(ec) = return_error {
        return AllowRoStep::Finished(make_failure2(ec, address, len));
    }

    // An unknown driver number is the canonical NoDevice failure for Allow.
    if kernel.find_driver(dn).is_none() {
        return AllowRoStep::Finished(make_failure2(ErrorCode::NoDevice, address, len));
    }

    match kernel.allow_db.insert_ro_buffer(address, len) {
        Ok(grant) => AllowRoStep::Granted(grant),
        Err(_) => AllowRoStep::Fatal(FatalError::GrantOverlap { address, len }),
    }
}

/// The second, in-kernel half of a Read-Only Allow: retire whatever buffer
/// the driver handed back and encode the return registers.  Success echoes
/// the returned address and length and leaves the caller's original length
/// in the reserved fourth register; failure carries the error code and the
/// returned address and length.
pub fn allow_ro_finish(
    kernel: &mut Kernel,
    driver_result: Result<RoGrant, (RoGrant, ErrorCode)>,
    len: usize,
) -> (r: Registers)
    requires
        old(kernel).wf(),
    ensures
        final(kernel).wf(),
        final(kernel).syscall_log@ == old(kernel).syscall_log@,
        final(kernel).expected_syscalls@ == old(kernel).expected_syscalls@,
        final(kernel).allow_db.rw@ == old(kernel).allow_db.rw@,
        drivers_eq(final(kernel).drivers@, old(kernel).drivers@),
        final(kernel).upcall_queue@ == old(kernel).upcall_queue@,
        driver_result matches Ok(b) ==> final(kernel).allow_db.ro@ == remove_first(
            old(kernel).allow_db.ro@,
            (b.address, b.len),
        ) && r == (Registers { r0: SUCCESS_2_U32, r1: b.address, r2: b.len, r3: len }),
        driver_result matches Err((b, ec)) ==> final(kernel).allow_db.ro@ == remove_first(
            old(kernel).allow_db.ro@,
            (b.address, b.len),
        ) && r == failure2(ec, b.address, b.len),
{
    match driver_result {
        Ok(buffer) => {
            let (address_out, len_out) = kernel.allow_db.remove_ro_buffer(buffer);
            Registers { r0: SUCCESS_2_U32, r1: address_out, r2: len_out, r3: len }
        },
        Err((buffer, ec)) => {
            let (address_out, len_out) = kernel.allow_db.remove_ro_buffer(buffer);
            make_failure2(ec, address_out, len_out)
        },
    }
}

/// On the granted path of an Allow, some buffer came back from the driver
/// and was retired from the granted table, and the return registers carry
/// that buffer's range — with the success tag and the caller's original
/// length behind it, or behind an error code the driver chose.
pub open spec fn allow_retired(
    granted: Seq<(usize, usize)>,
    post_tbl: Seq<(usize, usize)>,
    len: usize,
    r: Result<Registers, FatalError>,
) -> bool {
    exists|b_address: usize, b_len: usize|
        #![auto]
        post_tbl == remove_first(granted, (b_address, b_len)) && (r == Ok::<Registers, FatalError>(
            Registers { r0: SUCCESS_2_U32, r1: b_address, r2: b_len, r3: len },
        ) || exists|ec: ErrorCode| r == Ok::<Registers, FatalError>(failure2(ec, b_address, b_len)))
}

/// Everything a whole Read-Only Allow call with successfully decoded
/// identifiers does, for every driver behaviour: the paths that never reach
/// the driver are exact, and on the granted path the driver was consulted
/// and whatever buffer it handed back was retired and echoed.
pub open spec fn allow_ro_post(
    k: Kernel,
    post: Kernel,
    dn: u32,
    bn: u32,
    address: usize,
    len: usize,
    r: Result<Registers, FatalError>,
) -> bool {
    &&& post.syscall_log@ == k.syscall_log@.push(
        SyscallLogEntry::AllowRo { driver_number: dn, buffer_number: bn, len },
    )
    &&& post.expected_syscalls@ == popped(k.expected_syscalls@)
    &&& post.allow_db.rw@ == k.allow_db.rw@
    &&& drivers_eq(post.drivers@, k.drivers@)
    &&& post.upcall_queue@ == k.upcall_queue@
    &&& match allow_ro_expect_fatal(k.expected_syscalls@, dn, bn) {
        Some(f) => r == Err::<Registers, FatalError>(f) && post.allow_db.ro@ == k.allow_db.ro@,
        None => match allow_ro_return_error(k.expected_syscalls@, dn, bn) {
            Some(ec) => r == Ok::<Registers, FatalError>(failure2(ec, address, len))
                && post.allow_db.ro@ == k.allow_db.ro@,
            None => {
                if !k.has_driver(dn) {
                    r == Ok::<Registers, FatalError>(failure2(ErrorCode::NoDevice, address, len))
                        && post.allow_db.ro@ == k.allow_db.ro@
                } else if !range_free(k.allow_db.ro@, address, len) {
                    r == Err::<Registers, FatalError>(FatalError::GrantOverlap { address, len })
                        && post.allow_db.ro@ == k.allow_db.ro@
                } else {
                    allow_retired(k.allow_db.ro@.push((address, len)), post.allow_db.ro@, len, r)
                }
            },
        },
    }
}

/// The Read-Only Allow handler: grants the caller's buffer to the driver
/// under exclusive kernel access, invokes the driver's allow handling
/// outside it, then retires the buffer the driver handed back and encodes
/// the return registers.
pub fn allow_ro<D: SyscallDriver>(
    kernel: &mut Kernel,
    driver: &mut D,
    driver_number: usize,
    buffer_number: usize,
    address: usize,
    len: usize,
) -> (r: Result<Registers, FatalError>)
    requires
        old(kernel).wf(),
    ensures
        final(kernel).wf(),
        !fits_u32(driver_number) ==> r == Err::<Registers, FatalError>(
            FatalError::TooLargeDriverNumber { value: driver_number },
        ) && kernel_unchanged(*old(kernel), *final(kernel)),
        fits_u32(driver_number) && !fits_u32(buffer_number) ==> r == Err::<Registers, FatalError>(
            FatalError::TooLargeBufferNumber { value: buffer_number },
        ) && kernel_unchanged(*old(kernel), *final(kernel)),
        fits_u32(driver_number) && fits_u32(buffer_number) ==> allow_ro_post(
            *old(kernel),
            *final(kernel),
            driver_number as u32,
            buffer_number as u32,
            address,
            len,
            r,
        ),
{
    match allow_ro_begin(kernel, driver_number, buffer_number, address, len) {
        AllowRoStep::Fatal(f) => Err(f),
        AllowRoStep::Finished(regs) => Ok(regs),
        AllowRoStep::Granted(grant) => {
            let bn = buffer_number as u32;
            let driver_result = driver.allow_readonly(bn, grant);
            let regs = allow_ro_finish(kernel, driver_result, len);
            proof {
                match driver_result {
                    Ok(b) => {
                        assert(final(kernel).allow_db.ro@ == remove_first(
                            old(kernel).allow_db.ro@.push((address, len)),
                            (b.address, b.len),
                        ));
                    },
                    Err((b, ec)) => {
                        assert(final(kernel).allow_db.ro@ == remove_first(
                            old(kernel).allow_db.ro@.push((address, len)),
                            (b.address, b.len),
                        ));
                        assert(exists|e: ErrorCode|
                            Ok::<Registers, FatalError>(regs) == Ok::<Registers, FatalError>(
                                failure2(e, b.address, b.len),
                            ));
                    },
                }
            }
            Ok(regs)
        },
    }
}

/// The harness-fatal mismatch, if any, that a Read-Write Allow call with
/// the given identifiers raises against the front of the expectation queue.
pub open spec fn allow_rw_expect_fatal(q: Seq<ExpectedSyscall>, dn: u32, bn: u32) -> Option<
    FatalError,
> {
    if q.len() == 0 {
        None
    } else {
        match q[0] {
            ExpectedSyscall::AllowRw { driver_number, buffer_number, return_error } => {
                if driver_number != dn {
                    Some(FatalError::WrongDriverNumber { expected: driver_number, actual: dn })
                } else if buffer_number != bn {
                    Some(FatalError::WrongBufferNumber { expected: buffer_number, actual: bn })
                } else {
                    None
                }
            },
            e => Some(
                FatalError::WrongCallKind { expected_kind: kind_of(e), actual_kind: SyscallKind::AllowRw },
            ),
        }
    }
}

/// The injected error, if any, a matching front expectation tells a
/// Read-Write Allow call to fail with.
pub open spec fn allow_rw_return_error(q: Seq<ExpectedSyscall>, dn: u32, bn: u32) -> Option<
    ErrorCode,
> {
    if q.len() == 0 {
        None
    } else {
        match q[0] {
            ExpectedSyscall::AllowRw { driver_number, buffer_number, return_error } => {
                if driver_number == dn && buffer_number == bn {
                    return_error
                } else {
                    None
                }
            },
            _ => None,
        }
    }
}

/// What the first, in-kernel half of a Read-Write Allow leaves behind.
#[derive(Clone, Copy, Debug, PartialEq, Eq)]
pub enum AllowRwStep {
    Fatal(FatalError),
    Finished(Registers),
    Granted(RwGrant),
}

/// The Read-Write Allow counterpart of [`allow_ro_begin_post`]: the same
/// life cycle against the read-write grant table.
pub open spec fn allow_rw_begin_post(
    k: Kernel,
    post: Kernel,
    dn: u32,
    bn: u32,
    address: usize,
    len: usize,
    r: AllowRwStep,
) -> bool {
    &&& post.syscall_log@ == k.syscall_log@.push(
        SyscallLogEntry::AllowRw { driver_number: dn, buffer_number: bn, len },
    )
    &&& post.expected_syscalls@ == popped(k.expected_syscalls@)
    &&& post.allow_db.ro@ == k.allow_db.ro@
    &&& drivers_eq(post.drivers@, k.drivers@)
    &&& post.upcall_queue@ == k.upcall_queue@
    &&& match allow_rw_expect_fatal(k.expected_syscalls@, dn, bn) {
        Some(f) => r == AllowRwStep::Fatal(f) && post.allow_db.rw@ == k.allow_db.rw@,
        None => match allow_rw_return_error(k.expected_syscalls@, dn, bn) {
            Some(ec) => r == AllowRwStep::Finished(failure2(ec, address, len))
                && post.allow_db.rw@ == k.allow_db.rw@,
            None => {
                if !k.has_driver(dn) {
                    r == AllowRwStep::Finished(failure2(ErrorCode::NoDevice, address, len))
                        && post.allow_db.rw@ == k.allow_db.rw@
                } else if !range_free(k.allow_db.rw@, address, len) {
                    r == AllowRwStep::Fatal(FatalError::GrantOverlap { address, len })
                        && post.allow_db.rw@ == k.allow_db.rw@
                } else {
                    r == AllowRwStep::Granted(RwGrant { address, len }) && post.allow_db.rw@
                        == k.allow_db.rw@.push((address, len))
                }
            },
        },
    }
}

/// The first, in-kernel half of a Read-Write Allow.
pub fn allow_rw_begin(
    kernel: &mut Kernel,
    driver_number: usize,
    buffer_number: usize,
    address: usize,
    len: usize,
) -> (r: AllowRwStep)
    requires
        old(kernel).wf(),
    ensures
        final(kernel).wf(),
        !fits_u32(driver_number) ==> r == AllowRwStep::Fatal(
            FatalError::TooLargeDriverNumber { value: driver_number },
        ) && kernel_unchanged(*old(kernel), *final(kernel)),
        fits_u32(driver_number) && !fits_u32(buffer_number) ==> r == AllowRwStep::Fatal(
            FatalError::TooLargeBufferNumber { value: buffer_number },
        ) && kernel_unchanged(*old(kernel), *final(kernel)),
        fits_u32(driver_number) && fits_u32(buffer_number) ==> allow_rw_begin_post(
            *old(kernel),
            *final(kernel),
            driver_number as u32,
            buffer_number as u32,
            address,
            len,
            r,
        ),
        r is Granted ==> fits_u32(driver_number) && fits_u32(buffer_number),
{
    if !check_fits_u32(driver_number) {
        return AllowRwStep::Fatal(FatalError::TooLargeDriverNumber { value: driver_number });
    }
    if !check_fits_u32(buffer_number) {
        return AllowRwStep::Fatal(FatalError::TooLargeBufferNumber { value: buffer_number });
    }
    let dn = driver_number as u32;
    let bn = buffer_number as u32;

    kernel.syscall_log.push(
        SyscallLogEntry::AllowRw { driver_number: dn, buffer_number: bn, len },
    );

    let return_error: Option<ErrorCode>;
    if kernel.expected_syscalls.len() > 0 {
        let e = kernel.expected_syscalls.remove(0);
        match e {
            ExpectedSyscall::AllowRw {
                driver_number: expected_dn,
                buffer_number: expected_bn,
                return_error: re,
            } => {
                if expected_dn != dn {
                    return AllowRwStep::Fatal(
                        FatalError::WrongDriverNumber { expected: expected_dn, actual: dn },
                    );
                }
                if expected_bn != bn {
                    return AllowRwStep::Fatal(
                        FatalError::WrongBufferNumber { expected: expected_bn, actual: bn },
                    );
                }
                return_error = re;
            },
            other => {
                return AllowRwStep::Fatal(
                    FatalError::WrongCallKind {
                        expected_kind: expected_kind(&other),
                        actual_kind: SyscallKind::AllowRw,
                    },
                );
            },
        }
    } else {
        return_error = None;
    }

    if let Some(ec) = return_error {
        return AllowRwStep::Finished(make_failure2(ec, address, len));
    }

    if kernel.find_driver(dn).is_none() {
        return AllowRwStep::Finished(make_failure2(ErrorCode::NoDevice, address, len));
    }

    match kernel.allow_db.insert_rw_buffer(address, len) {
        Ok(grant) => AllowRwStep::Granted(grant),
        Err(_) => AllowRwStep::Fatal(FatalError::GrantOverlap { address, len }),
    }
}

/// The second, in-kernel half of a Read-Write Allow: the counterpart of
/// [`allow_ro_finish`] against the read-write grant table.
pub fn allow_rw_finish(
    kernel: &mut Kernel,
    driver_result: Result<RwGrant, (RwGrant, ErrorCode)>,
    len: usize,
) -> (r: Registers)
    requires
        old(kernel).wf(),
    ensures
        final(kernel).wf(),
        final(kernel).syscall_log@ == old(kernel).syscall_log@,
        final(kernel).expected_syscalls@ == old(kernel).expected_syscalls@,
        final(kernel).allow_db.ro@ == old(kernel).allow_db.ro@,
        drivers_eq(final(kernel).drivers@, old(kernel).drivers@),
        final(kernel).upcall_queue@ == old(kernel).upcall_queue@,
        driver_result matches Ok(b) ==> final(kernel).allow_db.rw@ == remove_first(
            old(kernel).allow_db.rw@,
            (b.address, b.len),
        ) && r == (Registers { r0: SUCCESS_2_U32, r1: b.address, r2: b.len, r3: len }),
        driver_result matches Err((b, ec)) ==> final(kernel).allow_db.rw@ == remove_first(
            old(kernel).allow_db.rw@,
            (b.address, b.len),
        ) && r == failure2(ec, b.address, b.len),
{
    match driver_result {
        Ok(buffer) => {
            let (address_out, len_out) = kernel.allow_db.remove_rw_buffer(buffer);
            Registers { r0: SUCCESS_2_U32, r1: address_out, r2: len_out, r3: len }
        },
        Err((buffer, ec)) => {
            let (address_out, len_out) = kernel.allow_db.remove_rw_buffer(buffer);
            make_failure2(ec, address_out, len_out)
        },
    }
}

/// The Read-Write Allow counterpart of [`allow_ro_post`].
pub open spec fn allow_rw_post(
    k: Kernel,
    post: Kernel,
    dn: u32,
    bn: u32,
    address: usize,
    len: usize,
    r: Result<Registers, FatalError>,
) -> bool {
    &&& post.syscall_log@ == k.syscall_log@.push(
        SyscallLogEntry::AllowRw { driver_number: dn, buffer_number: bn, len },
    )
    &&& post.expected_syscalls@ == popped(k.expected_syscalls@)
    &&& post.allow_db.ro@ == k.allow_db.ro@
    &&& drivers_eq(post.drivers@, k.drivers@)
    &&& post.upcall_queue@ == k.upcall_queue@
    &&& match allow_rw_expect_fatal(k.expected_syscalls@, dn, bn) {
        Some(f) => r == Err::<Registers, FatalError>(f) && post.allow_db.rw@ == k.allow_db.rw@,
        None => match allow_rw_return_error(k.expected_syscalls@, dn, bn) {
            Some(ec) => r == Ok::<Registers, FatalError>(failure2(ec, address, len))
                && post.allow_db.rw@ == k.allow_db.rw@,
            None => {
                if !k.has_driver(dn) {
                    r == Ok::<Registers, FatalError>(failure2(ErrorCode::NoDevice, address, len))
                        && post.allow_db.rw@ == k.allow_db.rw@
                } else if !range_free(k.allow_db.rw@, address, len) {
                    r == Err::<Registers, FatalError>(FatalError::GrantOverlap { address, len })
                        && post.allow_db.rw@ == k.allow_db.rw@
                } else {
                    allow_retired(k.allow_db.rw@.push((address, len)), post.allow_db.rw@, len, r)
                }
            },
        },
    }
}

/// The Read-Write Allow handler: the counterpart of [`allow_ro`].
pub fn allow_rw<D: SyscallDriver>(
    kernel: &mut Kernel,
    driver: &mut D,
    driver_number: usize,
    buffer_number: usize,
    address: usize,
    len: usize,
) -> (r: Result<Registers, FatalError>)
    requires
        old(kernel).wf(),
    ensures
        final(kernel).wf(),
        !fits_u32(driver_number) ==> r == Err::<Registers, FatalError>(
            FatalError::TooLargeDriverNumber { value: driver_number },
        ) && kernel_unchanged(*old(kernel), *final(kernel)),
        fits_u32(driver_number) && !fits_u32(buffer_number) ==> r == Err::<Registers, FatalError>(
            FatalError::TooLargeBufferNumber { value: buffer_number },
        ) && kernel_unchanged(*old(kernel), *final(kernel)),
        fits_u32(driver_number) && fits_u32(buffer_number) ==> allow_rw_post(
            *old(kernel),
            *final(kernel),
            driver_number as u32,
            buffer_number as u32,
            address,
            len,
            r,
        ),
{
    match allow_rw_begin(kernel, driver_number, buffer_number, address, len) {
        AllowRwStep::Fatal(f) => Err(f),
        AllowRwStep::Finished(regs) => Ok(regs),
        AllowRwStep::Granted(grant) => {
            let bn = buffer_number as u32;
            let driver_result = driver.allow_readwrite(bn, grant);
            let regs = allow_rw_finish(kernel, driver_result, len);
            proof {
                match driver_result {
                    Ok(b) => {
                        assert(final(kernel).allow_db.rw@ == remove_first(
                            old(kernel).allow_db.rw@.push((address, len)),
                            (b.address, b.len),
                        ));
                    },
                    Err((b, ec)) => {
                        assert(final(kernel).allow_db.rw@ == remove_first(
                            old(kernel).allow_db.rw@.push((address, len)),
                            (b.address, b.len),
                        ));
                        assert(exists|e: ErrorCode|
                            Ok::<Registers, FatalError>(regs) == Ok::<Registers, FatalError>(
                                failure2(e, b.address, b.len),
                            ));
                    },
                }
            }
            Ok(regs)
        },
    }
}

/// Replace-purges invariant: after a successful Subscribe to (driver,
/// slot), the pending-delivery queue holds not a single delivery for that
/// subscription — whatever had been queued for the replaced upcall is gone.
pub proof fn lemma_subscribe_replace_purges(
    k: Kernel,
    post: Kernel,
    dn: u32,
    sn: u32,
    upcall_fn: usize,
    data: usize,
    r: Result<Registers, FatalError>,
)
    requires
        subscribe_success_post(k, post, dn, sn, upcall_fn, data, r),
    ensures
        forall|i: int|
            0 <= i < post.upcall_queue@.len() ==> (#[trigger] post.upcall_queue@[i]).id != (
            UpcallId { driver_number: dn, subscribe_number: sn }),
{
    crate::upcalls::lemma_purged_no_match(
        k.upcall_queue@,
        UpcallId { driver_number: dn, subscribe_number: sn },
    );
}

/// Echo invariant: a successful Subscribe that replaces an empty slot
/// returns 0 for the previous callback and 0 for the previous data; one
/// that replaces a slot holding callback `f` with data `v` returns exactly
/// `f` and `v`; and the fourth register passes the newly supplied data
/// through either way.
pub proof fn lemma_subscribe_echo(
    k: Kernel,
    post: Kernel,
    dn: u32,
    sn: u32,
    upcall_fn: usize,
    data: usize,
    r: Result<Registers, FatalError>,
)
    requires
        subscribe_success_post(k, post, dn, sn, upcall_fn, data, r),
    ensures
        k.slot(dn, sn) is None ==> r == Ok::<Registers, FatalError>(
            Registers { r0: SUCCESS_2_U32, r1: 0, r2: 0, r3: data },
        ),
        forall|f: usize, v: usize|
            k.slot(dn, sn) == Some(Upcall { fn_pointer: Some(f), data: v }) ==> r == Ok::<
                Registers,
                FatalError,
            >(Registers { r0: SUCCESS_2_U32, r1: f, r2: v, r3: data }),
{
}

/// Expectation FIFO: expectations are matched strictly front-first.  A call
/// matching the front expectation's kind and fields raises no fatal
/// mismatch; a call whose driver number belongs to a later expectation is
/// refused with a diagnostic naming the front expectation's driver number
/// as expected and the call's as actual.  Which entry is matched never
/// depends on the rest of the queue.
pub proof fn lemma_expectation_fifo(
    q: Seq<ExpectedSyscall>,
    expected_dn: u32,
    expected_sn: u32,
    injected: Option<ErrorCode>,
    dn: u32,
    sn: u32,
)
    requires
        q.len() > 0,
        q[0] == (ExpectedSyscall::Subscribe {
            driver_number: expected_dn,
            subscribe_number: expected_sn,
            skip_with_error: injected,
        }),
    ensures
        expected_dn == dn && expected_sn == sn ==> sub_expect_fatal(q, dn, sn) is None,
        expected_dn != dn ==> sub_expect_fatal(q, dn, sn) == Some(
            FatalError::WrongDriverNumber { expected: expected_dn, actual: dn },
        ),
        expected_dn == dn && expected_sn != sn ==> sub_expect_fatal(q, dn, sn) == Some(
            FatalError::WrongSubscribeNumber { expected: expected_sn, actual: sn },
        ),
{
}

} // verus!
