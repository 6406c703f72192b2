use openat2::{OpenFlagValues, OpenHow, ResolveFlags};

#[test]
fn test_openhow_truncate_flags_mode() {
    let mut how = OpenHow::new(0, 0);

    how.flags = (libc::O_WRONLY | libc::O_TRUNC | libc::O_SYNC | libc::O_CLOEXEC) as u64;
    how.mode = 0o666;
    how.truncate_flags_mode();
    assert_eq!(
        how.flags,
        (libc::O_WRONLY | libc::O_TRUNC | libc::O_SYNC | libc::O_CLOEXEC) as u64
    );
    assert_eq!(how.mode, 0);

    how.flags = (libc::O_PATH | libc::O_WRONLY | libc::O_CLOEXEC) as u64;
    how.mode = 0o666;
    how.truncate_flags_mode();
    assert_eq!(how.flags, (libc::O_PATH | libc::O_CLOEXEC) as u64);
    assert_eq!(how.mode, 0);

    // O_CREAT and O_TMPFILE actually preserve the `flags` argument
    how.flags = (libc::O_WRONLY | libc::O_CREAT | libc::O_TRUNC | libc::O_CLOEXEC) as u64;
    how.mode = 0o666;
    how.truncate_flags_mode();
    assert_eq!(
        how.flags,
        (libc::O_WRONLY | libc::O_CREAT | libc::O_TRUNC | libc::O_CLOEXEC) as u64
    );
    assert_eq!(how.mode, 0o666);

    how.flags = (libc::O_WRONLY | libc::O_TMPFILE | libc::O_CLOEXEC) as u64;
    how.mode = 0o666;
    assert_eq!(
        how.flags,
        (libc::O_WRONLY | libc::O_TMPFILE | libc::O_CLOEXEC) as u64
    );
    how.truncate_flags_mode();
    assert_eq!(how.mode, 0o666);
}

#[test]
fn new_keeps_flags_and_mode() {
    let how = OpenHow::new(libc::O_RDWR | libc::O_CREAT, 0o640);
    assert_eq!(how.flags, (libc::O_RDWR | libc::O_CREAT) as u64);
    assert_eq!(how.mode, 0o640);
    assert!(how.resolve.is_empty());
    assert_eq!(how.resolve, ResolveFlags::empty());
}

#[test]
fn truncation_drops_unknown_flags() {
    let mut how = OpenHow::new(libc::O_RDONLY, 0o600);
    how.flags |= 1u64 << 40;
    how.truncate_flags_mode();
    assert_eq!(how.flags, libc::O_RDONLY as u64);
    assert_eq!(how.mode, 0);
}

#[test]
fn truncation_keeps_resolve_flags() {
    let mut how = OpenHow::new(libc::O_PATH | libc::O_DIRECTORY | libc::O_RDWR, 0o600);
    how.resolve.insert(ResolveFlags::beneath());
    how.truncate_flags_mode();
    assert_eq!(how.flags, (libc::O_PATH | libc::O_DIRECTORY) as u64);
    assert_eq!(how.mode, 0);
    assert_eq!(how.resolve, ResolveFlags::beneath());
}

#[test]
fn truncation_is_idempotent() {
    let starts = [
        (libc::O_PATH | libc::O_WRONLY | libc::O_CLOEXEC, 0o666),
        (libc::O_WRONLY | libc::O_TRUNC | libc::O_SYNC | libc::O_CLOEXEC, 0o666),
        (libc::O_WRONLY | libc::O_CREAT | libc::O_TRUNC | libc::O_CLOEXEC, 0o666),
        (libc::O_WRONLY | libc::O_TMPFILE | libc::O_CLOEXEC, 0o666),
    ];
    for (flags, mode) in starts {
        let mut once = OpenHow::new(flags, mode);
        once.truncate_flags_mode();
        let mut twice = once;
        twice.truncate_flags_mode();
        assert_eq!(once, twice);
    }
}

fn sample_values() -> OpenFlagValues {
    OpenFlagValues {
        rdonly: 0,
        wronly: 0x1,
        rdwr: 0x2,
        append: 0x400,
        async_io: 0x2000,
        cloexec: 0x80000,
        creat: 0x40,
        direct: 0x4000,
        directory: 0x10000,
        dsync: 0x1000,
        excl: 0x80,
        largefile: 0x8000,
        noatime: 0x40000,
        noctty: 0x100,
        nofollow: 0x20000,
        nonblock: 0x800,
        path: 0x200000,
        sync: 0x101000,
        tmpfile: 0x410000,
        trunc: 0x200,
    }
}

#[test]
fn truncation_with_given_values() {
    let v = sample_values();

    let mut how = OpenHow::new(0x200000 | 0x1 | 0x80000, 0o666);
    how.truncate_flags_mode_with(&v);
    assert_eq!(how.flags, 0x280000);
    assert_eq!(how.mode, 0);

    let mut how = OpenHow::new(0x1 | 0x200 | 0x101000 | 0x80000, 0o666);
    how.truncate_flags_mode_with(&v);
    assert_eq!(how.flags, 0x181201);
    assert_eq!(how.mode, 0);

    let mut how = OpenHow::new(0x1 | 0x40 | 0x200 | 0x80000, 0o666);
    how.truncate_flags_mode_with(&v);
    assert_eq!(how.flags, 0x80241);
    assert_eq!(how.mode, 0o666);

    // O_TMPFILE counts only where all of its bits are present.
    let mut how = OpenHow::new(0x1 | 0x400000, 0o666);
    how.truncate_flags_mode_with(&v);
    assert_eq!(how.flags, 0x400001);
    assert_eq!(how.mode, 0);

    let mut how = OpenHow::new(0x1 | 0x410000 | 0x80000, 0o666);
    how.truncate_flags_mode_with(&v);
    assert_eq!(how.flags, 0x490001);
    assert_eq!(how.mode, 0o666);
}
