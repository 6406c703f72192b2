use openat2::cache::{probe_cache_state, read_probe_cache, PROBE_UNKNOWN};
use openat2::syscall::{c_path_bytes, probe_verdict, syscall_result, ProbeOutcome};

#[test]
fn path_gets_a_terminating_nul() {
    assert_eq!(c_path_bytes(b"./NOEXIST"), Ok(b"./NOEXIST\0".to_vec()));
    assert_eq!(c_path_bytes(b""), Ok(vec![0u8]));
}

#[test]
fn path_with_interior_nul_is_refused() {
    assert_eq!(c_path_bytes(b"a\0b\0"), Err(1));
    assert_eq!(c_path_bytes(b"\0"), Err(0));
}

#[test]
fn negative_return_is_the_error_code() {
    assert_eq!(syscall_result(-1, libc::ENOENT), Err(libc::ENOENT));
    assert_eq!(syscall_result(-1, libc::EXDEV), Err(libc::EXDEV));
    assert_eq!(syscall_result(3, 0), Ok(3));
    assert_eq!(syscall_result(0, libc::EINVAL), Ok(0));
}

#[test]
fn existence_probe_verdicts() {
    let v = probe_verdict(-1, libc::EFAULT, libc::EFAULT);
    assert_eq!(v, ProbeOutcome::Supported);
    assert!(v.is_supported());
    assert_eq!(v.descriptor_to_close(), None);

    let v = probe_verdict(-1, libc::ENOSYS, libc::EFAULT);
    assert_eq!(v, ProbeOutcome::Unsupported);
    assert!(!v.is_supported());

    let v = probe_verdict(-1, libc::EPERM, libc::EFAULT);
    assert!(!v.is_supported());

    let v = probe_verdict(5, 0, libc::EFAULT);
    assert_eq!(v, ProbeOutcome::Spurious(5));
    assert!(!v.is_supported());
    assert_eq!(v.descriptor_to_close(), Some(5));
}

#[test]
fn request_probe_verdicts() {
    assert!(probe_verdict(-1, libc::ENOENT, libc::ENOENT).is_supported());
    assert!(!probe_verdict(-1, libc::EINVAL, libc::ENOENT).is_supported());
    assert!(!probe_verdict(-1, libc::E2BIG, libc::ENOENT).is_supported());
    assert_eq!(probe_verdict(0, libc::ENOENT, libc::ENOENT), ProbeOutcome::Spurious(0));
}

#[test]
fn probe_cache_round_trip() {
    assert_eq!(read_probe_cache(PROBE_UNKNOWN), None);
    assert_eq!(read_probe_cache(probe_cache_state(true)), Some(true));
    assert_eq!(read_probe_cache(probe_cache_state(false)), Some(false));
    assert_eq!(probe_cache_state(true), 1);
    assert_eq!(probe_cache_state(false), 0);
    assert_eq!(read_probe_cache(200), None);
}
