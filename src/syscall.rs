use vstd::prelude::*;

verus! {

/// `path` holds no NUL byte.
pub open spec fn no_nul(path: Seq<u8>) -> bool {
    forall|i: int| 0 <= i < path.len() ==> path[i] != 0
}

/// The path as the kernel reads it: its bytes, then one NUL.
///
/// A path that holds a NUL byte cannot be passed: the error is the position of the first
/// such byte.
pub fn c_path_bytes(path: &[u8]) -> (r: Result<Vec<u8>, usize>)
    ensures
        r is Ok <==> no_nul(path@),
        r matches Ok(v) ==> v@ == path@.push(0u8),
        r matches Err(i) ==> i < path@.len() && path@[i as int] == 0 && no_nul(
            path@.subrange(0, i as int),
        ),
{
    let mut out: Vec<u8> = Vec::new();
    let mut i: usize = 0;
    while i < path.len()
        invariant
            i <= path@.len(),
            out@ == path@.subrange(0, i as int),
            no_nul(path@.subrange(0, i as int)),
        decreases path@.len() - i,
    {
        let b = path[i];
        if b == 0 {
            return Err(i);
        }
        out.push(b);
        i = i + 1;
        assert(out@ =~= path@.subrange(0, i as int));
        assert(no_nul(path@.subrange(0, i as int))) by {
            assert forall|j: int| 0 <= j < i as int implies #[trigger] path@.subrange(
                0,
                i as int,
            )[j] != 0 by {
                if j < i - 1 {
                    assert(path@.subrange(0, i as int)[j] == path@.subrange(0, i - 1)[j]);
                }
            }
        }
    }
    assert(path@.subrange(0, path@.len() as int) =~= path@);
    out.push(0u8);
    Ok(out)
}

/// The outcome of an `openat2()` call: the new file descriptor, or the error code that the
/// call left behind where it failed.
///
/// A negative return value means failure, and the reason is `errno`.
pub fn syscall_result(ret: i64, errno: i32) -> (r: Result<i32, i32>)
    requires
        ret <= i32::MAX,
    ensures
        ret < 0 ==> r == Err::<i32, i32>(errno),
        ret >= 0 ==> r == Ok::<i32, i32>(ret as i32),
{
    if ret < 0 {
        Err(errno)
    } else {
        Ok(ret as i32)
    }
}

/// What the outcome of a capability probe means.
#[derive(Clone, Copy, Debug, PartialEq, Eq, Structural)]
pub enum ProbeOutcome {
    /// The call failed with the error that shows support.
    Supported,
    /// The call failed with any other error.
    Unsupported,
    /// The call opened a file, which it never should: the descriptor must be closed, and the
    /// answer is that support is absent.
    Spurious(i64),
}

impl ProbeOutcome {
    /// The answer that a probe with this outcome reports.
    pub fn is_supported(&self) -> (r: bool)
        ensures
            r == (*self == ProbeOutcome::Supported),
    {
        match self {
            ProbeOutcome::Supported => true,
            _ => false,
        }
    }

    /// The descriptor that the probe must close before it answers, if any.
    pub fn descriptor_to_close(&self) -> (r: Option<i64>)
        ensures
            r == (match *self {
                ProbeOutcome::Spurious(fd) => Some(fd),
                _ => None,
            }),
    {
        match self {
            ProbeOutcome::Spurious(fd) => Some(*fd),
            _ => None,
        }
    }
}

/// Judge the raw return value `ret` and error code `errno` of a probe whose support is
/// shown by a failure with `expected`.
///
/// The existence probe passes null pointers and expects `EFAULT`; the probe of a request
/// opens an empty path and expects `ENOENT`.
pub fn probe_verdict(ret: i64, errno: i32, expected: i32) -> (r: ProbeOutcome)
    ensures
        ret < 0 && errno == expected ==> r == ProbeOutcome::Supported,
        ret < 0 && errno != expected ==> r == ProbeOutcome::Unsupported,
        ret >= 0 ==> r == ProbeOutcome::Spurious(ret),
{
    if ret < 0 {
        if errno == expected {
            ProbeOutcome::Supported
        } else {
            ProbeOutcome::Unsupported
        }
    } else {
        ProbeOutcome::Spurious(ret)
    }
}

} // verus!
