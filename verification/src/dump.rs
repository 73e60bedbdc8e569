//! Firmware dump reassembly.
//!
//! After the dump command is sent once, the device streams 64-byte
//! chunk frames. Each valid chunk begins with a fixed prefix; its header
//! byte at offset 5 holds the payload length plus 2, its bytes 6..8 hold
//! a big-endian chunk index (diagnostics only), and its payload starts
//! at offset 8. A chunk shorter than the full 56 payload bytes ends the
//! stream; a chunk that fails prefix validation aborts the whole dump,
//! and no partial image is kept.

use vstd::prelude::*;
use crate::frame::matches_prefix;
use crate::frame::verify;

verus! {

/// The command that starts a firmware dump.
pub open spec fn dump_command_bytes() -> Seq<u8> {
    seq![0u8, 0xaa, 0xaa, 0xd0, 0x00, 0x00]
}

/// The prefix every dump chunk frame must begin with.
pub open spec fn dump_prefix_bytes() -> Seq<u8> {
    seq![85u8, 85, 208, 0, 0]
}

/// The dump command, ready to frame.
pub fn dump_command() -> (v: Vec<u8>)
    ensures
        v@ == dump_command_bytes(),
{
    let mut v: Vec<u8> = Vec::new();
    v.push(0);
    v.push(0xaa);
    v.push(0xaa);
    v.push(0xd0);
    v.push(0x00);
    v.push(0x00);
    proof {
        assert(v@ =~= dump_command_bytes());
    }
    v
}

/// The dump chunk prefix.
pub fn dump_prefix() -> (v: Vec<u8>)
    ensures
        v@ == dump_prefix_bytes(),
{
    let mut v: Vec<u8> = Vec::new();
    v.push(85);
    v.push(85);
    v.push(208);
    v.push(0);
    v.push(0);
    proof {
        assert(v@ =~= dump_prefix_bytes());
    }
    v
}

/// What one dump chunk did to the reassembly.
#[derive(Clone, Copy, Debug, PartialEq, Eq, Structural)]
pub enum DumpStep {
    /// The chunk was full; more chunks follow.
    Continue,
    /// The chunk was short; the image is complete.
    Done,
    /// The chunk failed prefix validation; the dump is abandoned.
    Abort,
}

/// Consume one chunk frame: validate its prefix, and append its payload
/// — the `frame[5] - 2` bytes from offset 8 — to the image accumulated
/// so far. A short chunk reports `Done`, a full one `Continue`, and a
/// frame whose prefix does not match reports `Abort` and leaves the
/// accumulator untouched.
pub fn dump_step(acc: &mut Vec<u8>, frame: &Vec<u8>) -> (step: DumpStep)
    requires
        frame@.len() == 64,
        matches_prefix(frame@, dump_prefix_bytes()) ==> 2 <= frame@[5] <= 58,
    ensures
        step is Abort <==> !matches_prefix(frame@, dump_prefix_bytes()),
        step is Abort ==> final(acc)@ == old(acc)@,
        matches_prefix(frame@, dump_prefix_bytes()) ==> {
            &&& final(acc)@ == old(acc)@ + frame@.subrange(8, 8 + (frame@[5] - 2))
            &&& (step is Done <==> frame@[5] - 2 < 56)
            &&& (step is Continue <==> frame@[5] - 2 == 56)
        },
{
    let prefix = dump_prefix();
    if !verify(frame, &prefix) {
        return DumpStep::Abort;
    }
    let len: u8 = frame[5] - 2;
    let ghost acc0 = acc@;
    let mut i: usize = 0;
    while i < len as usize
        invariant
            i <= len <= 56,
            frame@.len() == 64,
            acc@ == acc0 + frame@.subrange(8, 8 + i),
        decreases len as int - i,
    {
        acc.push(frame[8 + i]);
        proof {
            assert(acc@ =~= acc0 + frame@.subrange(8, 8 + i + 1));
        }
        i = i + 1;
    }
    proof {
        assert(acc@ =~= acc0 + frame@.subrange(8, 8 + (frame@[5] - 2)));
    }
    if len < 56 {
        DumpStep::Done
    } else {
        DumpStep::Continue
    }
}

/// The big-endian chunk index from header bytes 6..8 of a chunk frame.
pub fn chunk_index(frame: &Vec<u8>) -> (idx: u16)
    requires
        frame@.len() == 64,
    ensures
        idx == frame@[6] * 256 + frame@[7],
{
    (frame[6] as u16) * 256 + (frame[7] as u16)
}

} // verus!
