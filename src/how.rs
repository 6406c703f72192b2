use vstd::prelude::*;

use crate::resolve::ResolveFlags;

verus! {

/// How a path should be opened with `openat2()`.
///
/// The kernel reads this as three consecutive 8-byte unsigned integers: `flags`, `mode`
/// and the mask of `resolve`, 24 bytes in all.
#[derive(Clone, Copy, Debug, PartialEq, Eq, Structural)]
#[non_exhaustive]
pub struct OpenHow {
    /// The file creation and file status flags to use when opening the file.
    pub flags: u64,
    /// The mode to create the file with.
    ///
    /// If `O_CREAT` or `O_TMPFILE` is not in `flags`, this must be 0.
    pub mode: u64,
    /// Flags that modify path resolution.
    pub resolve: ResolveFlags,
}

/// The values that the host's C library gives the `open()` flags.
///
/// They differ between architectures, so the normalisation below is stated for any values.
#[derive(Clone, Copy, Debug)]
pub struct OpenFlagValues {
    pub rdonly: i32,
    pub wronly: i32,
    pub rdwr: i32,
    pub append: i32,
    pub async_io: i32,
    pub cloexec: i32,
    pub creat: i32,
    pub direct: i32,
    pub directory: i32,
    pub dsync: i32,
    pub excl: i32,
    pub largefile: i32,
    pub noatime: i32,
    pub noctty: i32,
    pub nofollow: i32,
    pub nonblock: i32,
    pub path: i32,
    pub sync: i32,
    pub tmpfile: i32,
    pub trunc: i32,
}

impl OpenFlagValues {
    /// The flags that still apply together with `O_PATH`, but for `O_PATH` itself.
    pub open spec fn path_companions(self) -> u64 {
        (self.directory as u64) | (self.nofollow as u64) | (self.cloexec as u64)
    }

    /// Every flag that `open()` recognises, but for `O_PATH`.
    pub open spec fn known_but_path(self) -> u64 {
        (self.rdonly as u64) | (self.wronly as u64) | (self.rdwr as u64) | (self.append as u64)
            | (self.async_io as u64) | (self.cloexec as u64) | (self.creat as u64) | (
        self.direct as u64) | (self.directory as u64) | (self.dsync as u64) | (self.excl as u64)
            | (self.largefile as u64) | (self.noatime as u64) | (self.noctty as u64) | (
        self.nofollow as u64) | (self.nonblock as u64) | (self.sync as u64) | (
        self.tmpfile as u64) | (self.trunc as u64)
    }

    /// The flags kept where `O_PATH` is given.
    pub open spec fn path_mask(self) -> u64 {
        (self.path as u64) | self.path_companions()
    }

    /// Every flag that `open()` recognises.
    pub open spec fn known_mask(self) -> u64 {
        (self.path as u64) | self.known_but_path()
    }
}

/// Every bit of `bit` is set in `flags`.
pub open spec fn has_flag(flags: u64, bit: u64) -> bool {
    flags & bit == bit
}

/// What `open()` keeps of `flags`.
pub open spec fn truncated_flags(flags: u64, v: OpenFlagValues) -> u64 {
    if has_flag(flags, v.path as u64) {
        flags & v.path_mask()
    } else {
        flags & v.known_mask()
    }
}

/// What `open()` keeps of `mode`: nothing with `O_PATH`, and otherwise all of it only
/// where the kept flags hold `O_CREAT` or `O_TMPFILE`.
pub open spec fn truncated_mode(flags: u64, mode: u64, v: OpenFlagValues) -> u64 {
    if has_flag(flags, v.path as u64) {
        0
    } else if has_flag(flags & v.known_mask(), v.creat as u64) || has_flag(
        flags & v.known_mask(),
        v.tmpfile as u64,
    ) {
        mode
    } else {
        0
    }
}

/// The request after the truncation that `open()` applies to its arguments.
pub open spec fn truncated(h: OpenHow, v: OpenFlagValues) -> OpenHow {
    OpenHow {
        flags: truncated_flags(h.flags, v),
        mode: truncated_mode(h.flags, h.mode, v),
        resolve: h.resolve,
    }
}

/// The value that libc gives, on the target it was built for, to the `open()` flag numbered
/// `which` in this order: 0 `O_RDONLY`, 1 `O_WRONLY`, 2 `O_RDWR`, 3 `O_APPEND`, 4 `O_ASYNC`, 5 `O_CLOEXEC`, 6 `O_CREAT`, 7 `O_DIRECT`, 8 `O_DIRECTORY`, 9 `O_DSYNC`, 10 `O_EXCL`, 11 `O_LARGEFILE`, 12 `O_NOATIME`, 13 `O_NOCTTY`, 14 `O_NOFOLLOW`, 15 `O_NONBLOCK`, 16 `O_PATH`, 17 `O_SYNC`, 18 `O_TMPFILE`, 19 `O_TRUNC`.
pub uninterp spec fn libc_open_flag(which: u8) -> i32;

/// The values of the `open()` flags on the target.
pub open spec fn host_flag_values() -> OpenFlagValues {
    OpenFlagValues {
        rdonly: libc_open_flag(0),
        wronly: libc_open_flag(1),
        rdwr: libc_open_flag(2),
        append: libc_open_flag(3),
        async_io: libc_open_flag(4),
        cloexec: libc_open_flag(5),
        creat: libc_open_flag(6),
        direct: libc_open_flag(7),
        directory: libc_open_flag(8),
        dsync: libc_open_flag(9),
        excl: libc_open_flag(10),
        largefile: libc_open_flag(11),
        noatime: libc_open_flag(12),
        noctty: libc_open_flag(13),
        nofollow: libc_open_flag(14),
        nonblock: libc_open_flag(15),
        path: libc_open_flag(16),
        sync: libc_open_flag(17),
        tmpfile: libc_open_flag(18),
        trunc: libc_open_flag(19),
    }
}

/// Relies on libc's `O_*` constants for the target, each read as it stands.
#[verifier::external_body]
fn host_open_flag_values() -> (r: OpenFlagValues)
    ensures
        r.rdonly == libc_open_flag(0),
        r.wronly == libc_open_flag(1),
        r.rdwr == libc_open_flag(2),
        r.append == libc_open_flag(3),
        r.async_io == libc_open_flag(4),
        r.cloexec == libc_open_flag(5),
        r.creat == libc_open_flag(6),
        r.direct == libc_open_flag(7),
        r.directory == libc_open_flag(8),
        r.dsync == libc_open_flag(9),
        r.excl == libc_open_flag(10),
        r.largefile == libc_open_flag(11),
        r.noatime == libc_open_flag(12),
        r.noctty == libc_open_flag(13),
        r.nofollow == libc_open_flag(14),
        r.nonblock == libc_open_flag(15),
        r.path == libc_open_flag(16),
        r.sync == libc_open_flag(17),
        r.tmpfile == libc_open_flag(18),
        r.trunc == libc_open_flag(19),
{
    OpenFlagValues {
        rdonly: libc::O_RDONLY, wronly: libc::O_WRONLY, rdwr: libc::O_RDWR,
        append: libc::O_APPEND, async_io: libc::O_ASYNC, cloexec: libc::O_CLOEXEC,
        creat: libc::O_CREAT, direct: libc::O_DIRECT, directory: libc::O_DIRECTORY,
        dsync: libc::O_DSYNC, excl: libc::O_EXCL, largefile: libc::O_LARGEFILE,
        noatime: libc::O_NOATIME, noctty: libc::O_NOCTTY, nofollow: libc::O_NOFOLLOW,
        nonblock: libc::O_NONBLOCK, path: libc::O_PATH, sync: libc::O_SYNC,
        tmpfile: libc::O_TMPFILE, trunc: libc::O_TRUNC,
    }
}

impl OpenFlagValues {
    fn path_mask_exec(&self) -> (r: u64)
        ensures
            r == self.path_mask(),
    {
        (self.path as u64) | ((self.directory as u64) | (self.nofollow as u64) | (
        self.cloexec as u64))
    }

    fn known_mask_exec(&self) -> (r: u64)
        ensures
            r == self.known_mask(),
    {
        (self.path as u64) | ((self.rdonly as u64) | (self.wronly as u64) | (self.rdwr as u64) | (
        self.append as u64) | (self.async_io as u64) | (self.cloexec as u64) | (
        self.creat as u64) | (self.direct as u64) | (self.directory as u64) | (
        self.dsync as u64) | (self.excl as u64) | (self.largefile as u64) | (
        self.noatime as u64) | (self.noctty as u64) | (self.nofollow as u64) | (
        self.nonblock as u64) | (self.sync as u64) | (self.tmpfile as u64) | (
        self.trunc as u64))
    }
}

impl OpenHow {
    /// The request is well formed: its resolution flags hold defined bits only.
    pub open spec fn wf(self) -> bool {
        self.resolve.wf()
    }

    /// A request with the given `flags` and `mode` and no resolution flags.
    ///
    /// This is the only way to create an `OpenHow`; the other fields can then be set on it.
    pub fn new(flags: i32, mode: u32) -> (r: OpenHow)
        ensures
            r.flags == flags as u64,
            r.mode == mode as u64,
            r.resolve@ == 0,
            r.wf(),
    {
        OpenHow { flags: flags as u64, mode: mode as u64, resolve: ResolveFlags::empty() }
    }

    /// Truncate `flags` and `mode` as `open()` does, given the values of the flags.
    ///
    /// With `O_PATH`, only `O_PATH`, `O_DIRECTORY`, `O_NOFOLLOW` and `O_CLOEXEC` are kept, and
    /// `mode` becomes 0. Otherwise every flag that `open()` does not recognise is dropped,
    /// and `mode` becomes 0 unless `O_CREAT` or `O_TMPFILE` remains.
    pub fn truncate_flags_mode_with(&mut self, v: &OpenFlagValues)
        ensures
            *final(self) == truncated(*old(self), *v),
    {
        let path = v.path as u64;
        if self.flags & path == path {
            self.flags = self.flags & v.path_mask_exec();
            self.mode = 0;
        } else {
            self.flags = self.flags & v.known_mask_exec();
            let creat = v.creat as u64;
            let tmpfile = v.tmpfile as u64;
            if self.flags & creat != creat && self.flags & tmpfile != tmpfile {
                self.mode = 0;
            }
        }
    }
}

impl OpenHow {
    /// Truncate `flags` and `mode` as `open()` does on the host.
    ///
    /// After this, `openat2()` should not fail with `EINVAL` on account of `flags` or `mode`,
    /// which helps to emulate `open()` or `openat()`. The outcome is that of
    /// `truncate_flags_mode_with` for the host's values of the flags: flags are only ever
    /// dropped, `mode` is kept or becomes 0, and the resolution flags stay as they are.
    pub fn truncate_flags_mode(&mut self)
        ensures
            *final(self) == truncated(*old(self), host_flag_values()),
            final(self).flags & !old(self).flags == 0,
            final(self).mode == old(self).mode || final(self).mode == 0,
            final(self).resolve == old(self).resolve,
    {
        let v = host_open_flag_values();
        assert(v == host_flag_values());
        self.truncate_flags_mode_with(&v);
        proof {
            lemma_truncation_only_drops(*old(self), v);
        }
    }
}

/// Truncation drops flags and never adds one, and keeps `mode` or clears it.
pub proof fn lemma_truncation_only_drops(h: OpenHow, v: OpenFlagValues)
    ensures
        truncated(h, v).flags & !h.flags == 0,
        truncated(h, v).mode == h.mode || truncated(h, v).mode == 0,
        truncated(h, v).resolve == h.resolve,
{
    let f = h.flags;
    let m1 = v.path_mask();
    let m2 = v.known_mask();
    assert((f & m1) & !f == 0) by (bit_vector);
    assert((f & m2) & !f == 0) by (bit_vector);
}

/// Truncating a request twice gives what truncating it once gives, whatever the values of
/// the flags.
pub proof fn lemma_truncation_idempotent(h: OpenHow, v: OpenFlagValues)
    ensures
        truncated(truncated(h, v), v) == truncated(h, v),
{
    let f = h.flags;
    let p = v.path as u64;
    let a = v.path_companions();
    let b = v.known_but_path();
    let once = truncated(h, v);
    if has_flag(f, p) {
        assert((f & (p | a)) & p == p && (f & (p | a)) & (p | a) == f & (p | a)) by (bit_vector)
            requires
                f & p == p,
        ;
    } else {
        assert((f & (p | b)) & p != p && (f & (p | b)) & (p | b) == f & (p | b)) by (bit_vector)
            requires
                f & p != p,
        ;
    }
}

} // verus!
