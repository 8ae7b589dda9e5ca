//! The write system call: which user memory the kernel may read for it.

use vstd::prelude::*;

verus! {

/// Descriptor of the standard output stream, the only one `sys_write` serves.
pub const FD_STDOUT: usize = 1;

/// The two windows of a task's memory that the kernel may read on its behalf:
/// its stack `[stack_top - stack_size, stack_top)` and its address space
/// `[as_low, as_high)`.
#[derive(Clone, Copy, Debug)]
pub struct UserWindows {
    pub stack_top: usize,
    pub stack_size: usize,
    pub as_low: usize,
    pub as_high: usize,
}

impl UserWindows {
    /// The stack window does not reach below address zero.
    pub open spec fn wf(&self) -> bool {
        self.stack_size <= self.stack_top
    }

    pub open spec fn stack_bottom(&self) -> int {
        self.stack_top - self.stack_size
    }
}

/// `addr` lies in the half-open window `[lo, hi)`.
pub open spec fn in_window(addr: int, lo: int, hi: int) -> bool {
    lo <= addr && addr < hi
}

/// Both the first address `buf` and the end address `buf + len` of a region
/// lie in `[lo, hi)`; a region ending exactly at `hi` does not qualify.
pub open spec fn region_in_window(buf: int, len: int, lo: int, hi: int) -> bool {
    in_window(buf, lo, hi) && in_window(buf + len, lo, hi)
}

/// The region may be read: it lies in the stack window or in the address space.
pub open spec fn region_readable(w: UserWindows, buf: int, len: int) -> bool {
    region_in_window(buf, len, w.stack_bottom(), w.stack_top as int)
        || region_in_window(buf, len, w.as_low as int, w.as_high as int)
}

/// What the kernel does with a write request.
#[derive(Clone, Copy, Debug, PartialEq, Eq, Structural)]
pub enum WriteOutcome {
    /// Emit the `len` bytes at `buf` on the output sink, in order.
    Emit { buf: usize, len: usize },
    /// Refuse the request; nothing is emitted.
    Rejected,
}

/// The outcome that a write of `len` bytes at `buf` to `fd` must have.
pub open spec fn write_outcome(fd: usize, buf: usize, len: usize, w: UserWindows) -> WriteOutcome {
    if fd == FD_STDOUT && region_readable(w, buf as int, len as int) {
        WriteOutcome::Emit { buf, len }
    } else {
        WriteOutcome::Rejected
    }
}

impl WriteOutcome {
    /// The signed word handed back to the caller: the byte count, or -1.
    pub open spec fn spec_return_value(self) -> isize {
        match self {
            WriteOutcome::Emit { len, .. } => len as isize,
            WriteOutcome::Rejected => -1isize,
        }
    }

    #[verifier::truncate]
    pub fn return_value(&self) -> (r: isize)
        ensures
            r == self.spec_return_value(),
    {
        match self {
            WriteOutcome::Emit { len, .. } => *len as isize,
            WriteOutcome::Rejected => -1,
        }
    }
}

fn window_contains(lo: usize, hi: usize, addr: usize) -> (r: bool)
    ensures
        r == in_window(addr as int, lo as int, hi as int),
{
    lo <= addr && addr < hi
}

/// Decides whether the kernel may read the `len` bytes starting at `buf`.
pub fn region_accepted(w: &UserWindows, buf: usize, len: usize) -> (r: bool)
    requires
        w.wf(),
    ensures
        r == region_readable(*w, buf as int, len as int),
{
    let bottom = w.stack_top - w.stack_size;
    match buf.checked_add(len) {
        // the end lies past the last address, so in no window
        None => false,
        Some(end) => {
            (window_contains(bottom, w.stack_top, buf) && window_contains(bottom, w.stack_top, end))
                || (window_contains(w.as_low, w.as_high, buf) && window_contains(
                w.as_low,
                w.as_high,
                end,
            ))
        },
    }
}

/// The write system call: only standard output is served, and only from a
/// region that lies wholly in one of the caller's windows.
pub fn sys_write(fd: usize, buf: usize, len: usize, w: &UserWindows) -> (r: WriteOutcome)
    requires
        w.wf(),
    ensures
        r == write_outcome(fd, buf, len, *w),
        r.spec_return_value() == (if r is Emit { len as isize } else { -1isize }),
{
    if fd == FD_STDOUT && region_accepted(w, buf, len) {
        WriteOutcome::Emit { buf, len }
    } else {
        WriteOutcome::Rejected
    }
}

/// Exactly one end of the region lies in `[lo, hi)`: the region crosses
/// one of the window's boundaries.
pub open spec fn region_straddles(buf: int, len: int, lo: int, hi: int) -> bool {
    in_window(buf, lo, hi) != in_window(buf + len, lo, hi)
}

/// Boundary laws of the write check. A region inside the stack window, or
/// inside the address space, with its end below the window's top, is written
/// in full. A region that crosses a boundary of one window and does not lie
/// in the other is refused, as is any descriptor but standard output.
pub proof fn lemma_write_boundaries(fd: usize, buf: usize, len: usize, w: UserWindows)
    requires
        w.wf(),
    ensures
        fd == FD_STDOUT && w.stack_bottom() <= buf && buf + len < w.stack_top ==> write_outcome(
            fd,
            buf,
            len,
            w,
        ) == (WriteOutcome::Emit { buf, len }),
        fd == FD_STDOUT && w.as_low <= buf && buf + len < w.as_high ==> write_outcome(fd, buf, len, w)
            == (WriteOutcome::Emit { buf, len }),
        region_straddles(buf as int, len as int, w.stack_bottom(), w.stack_top as int)
            && !region_in_window(buf as int, len as int, w.as_low as int, w.as_high as int)
            ==> write_outcome(fd, buf, len, w) == WriteOutcome::Rejected,
        region_straddles(buf as int, len as int, w.as_low as int, w.as_high as int)
            && !region_in_window(buf as int, len as int, w.stack_bottom(), w.stack_top as int)
            ==> write_outcome(fd, buf, len, w) == WriteOutcome::Rejected,
        fd != FD_STDOUT ==> write_outcome(fd, buf, len, w) == WriteOutcome::Rejected,
{
}

} // verus!
