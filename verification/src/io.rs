//! Helpers for asynchronous byte I/O.

use vstd::prelude::*;

verus! {

/// Says whether a reader wants the buffer it is handed to be zeroed first.
#[derive(Debug)]
pub struct Initializer(pub bool);

impl Initializer {
    /// An `Initializer` which zeroes the buffer.
    pub fn zeroing() -> (init: Initializer)
        ensures
            init.0,
    {
        Initializer(true)
    }

    /// An `Initializer` which leaves the buffer as it is. A reader may return
    /// one only if it never reads from the buffer it is handed.
    pub fn nop() -> (init: Initializer)
        ensures
            !init.0,
    {
        Initializer(false)
    }

    /// Whether the buffer should be initialized.
    pub fn should_initialize(&self) -> (b: bool)
        ensures
            b == self.0,
    {
        self.0
    }

    /// Zeroes the buffer if this `Initializer` asks for it.
    pub fn initialize(&self, buf: &mut Vec<u8>)
        ensures
            final(buf)@.len() == old(buf)@.len(),
            self.0 ==> forall|i: int| 0 <= i < final(buf)@.len() ==> final(buf)@[i] == 0,
            !self.0 ==> final(buf)@ == old(buf)@,
    {
        if self.should_initialize() {
            let mut i: usize = 0;
            while i < buf.len()
                invariant
                    i <= buf@.len(),
                    buf@.len() == old(buf)@.len(),
                    forall|j: int| 0 <= j < i ==> buf@[j] == 0,
                decreases buf@.len() - i,
            {
                buf.set(i, 0);
                i = i + 1;
            }
        }
    }
}

/// Where a write at `position` into a buffer of `len` bytes begins: at
/// `position`, or at the end of the buffer if `position` is beyond it.
pub open spec fn write_start(len: nat, position: u64) -> nat {
    if position < len {
        position as nat
    } else {
        len
    }
}

/// How many bytes a write of `wanted` bytes at `position` into a buffer of
/// `len` bytes takes: as many as fit between `position` and the end.
pub open spec fn write_len(len: nat, position: u64, wanted: nat) -> nat {
    let room = (len - write_start(len, position)) as nat;
    if wanted < room {
        wanted
    } else {
        room
    }
}

/// Writes `buf` into `out` at `position`, as far as it fits: the buffer does
/// not grow. Returns the number of bytes written, by which the caller moves
/// its position on.
pub fn cursor_write(out: &mut Vec<u8>, position: u64, buf: &[u8]) -> (written: usize)
    ensures
        written == write_len(old(out)@.len(), position, buf@.len()),
        final(out)@.len() == old(out)@.len(),
        forall|i: int|
            0 <= i < final(out)@.len() ==> final(out)@[i] == (if write_start(
                old(out)@.len(),
                position,
            ) <= i < write_start(old(out)@.len(), position) + written {
                buf@[i - write_start(old(out)@.len(), position)]
            } else {
                old(out)@[i]
            }),
{
    let len = out.len();
    let start: usize = if position < len as u64 {
        position as usize
    } else {
        len
    };
    let room = len - start;
    let count = if buf.len() < room {
        buf.len()
    } else {
        room
    };
    let mut i: usize = 0;
    while i < count
        invariant
            i <= count,
            count <= buf@.len(),
            start + count <= len,
            out@.len() == len,
            len == old(out)@.len(),
            forall|j: int|
                0 <= j < len ==> out@[j] == (if start <= j < start + i {
                    buf@[j - start]
                } else {
                    old(out)@[j]
                }),
        decreases count - i,
    {
        out.set(start + i, buf[i]);
        i = i + 1;
    }
    count
}

} // verus!
