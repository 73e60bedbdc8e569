//! Request frames and response prefix validation.
//!
//! Every message on the wire is exactly 64 bytes. A request is the command
//! bytes (report id first) copied to the front of a zero-filled buffer. A
//! response is trusted only if its leading bytes equal the prefix expected
//! for the request that was sent.

use vstd::prelude::*;

verus! {

/// True when `a` and `b` agree on every index both of them have.
///
/// An empty prefix matches anything; a mismatch at any shared index
/// fails the whole comparison, whatever the later bytes hold.
pub open spec fn matches_prefix(a: Seq<u8>, b: Seq<u8>) -> bool {
    forall|i: int| 0 <= i < a.len() && i < b.len() ==> a[i] == b[i]
}

/// Build a 64-byte request frame: the command bytes first, zero padding after.
pub fn build_frame(msg: &Vec<u8>) -> (out: Vec<u8>)
    requires
        msg@.len() <= 64,
    ensures
        out@.len() == 64,
        out@.subrange(0, msg@.len() as int) == msg@,
        forall|i: int| 0 <= i < msg@.len() ==> out@[i] == msg@[i],
        forall|i: int| msg@.len() <= i < 64 ==> out@[i] == 0,
{
    let mut out: Vec<u8> = Vec::new();
    let mut i: usize = 0;
    while i < msg.len()
        invariant
            i <= msg@.len() <= 64,
            out@.len() == i,
            out@ == msg@.subrange(0, i as int),
        decreases msg@.len() - i,
    {
        out.push(msg[i]);
        proof {
            assert(out@ =~= msg@.subrange(0, i + 1));
        }
        i = i + 1;
    }
    proof {
        assert(out@ =~= msg@);
    }
    while out.len() < 64
        invariant
            msg@.len() <= out@.len() <= 64,
            out@.subrange(0, msg@.len() as int) == msg@,
            forall|j: int| msg@.len() <= j < out@.len() ==> out@[j] == 0,
        decreases 64 - out@.len(),
    {
        out.push(0);
        proof {
            assert(out@.subrange(0, msg@.len() as int) =~= msg@);
        }
    }
    out
}

/// Compare `a` against the expected prefix `b`, byte by byte up to the
/// shorter length; all compared bytes must be equal.
pub fn verify(a: &Vec<u8>, b: &Vec<u8>) -> (r: bool)
    ensures
        r == matches_prefix(a@, b@),
{
    let n: usize = if a.len() < b.len() {
        a.len()
    } else {
        b.len()
    };
    let mut i: usize = 0;
    while i < n
        invariant
            i <= n,
            n <= a@.len(),
            n <= b@.len(),
            n == if a@.len() < b@.len() {
                a@.len()
            } else {
                b@.len()
            },
            forall|j: int| 0 <= j < i ==> a@[j] == b@[j],
        decreases n - i,
    {
        if a[i] != b[i] {
            return false;
        }
        i = i + 1;
    }
    true
}

} // verus!
