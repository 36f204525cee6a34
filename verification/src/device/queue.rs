//! Moving bytes between a caller's buffer and a modem's pin-side queue.

use std::collections::VecDeque;
use vstd::prelude::*;

verus! {

/// How many bytes a read of up to `limit` bytes takes from a queue that
/// holds `queued` bytes: as many as there are, but no more than `limit`.
pub open spec fn readable_count(queued: Seq<u8>, limit: nat) -> nat {
    if limit <= queued.len() {
        limit
    } else {
        queued.len()
    }
}

/// Moves bytes from the front of `queue` to the front of `buf`, until `buf`
/// is full or `queue` is empty, and returns how many were moved. The rest of
/// `buf` is left as it was.
pub fn read_from_queue(queue: &mut VecDeque<u8>, buf: &mut [u8]) -> (count: usize)
    ensures
        count == readable_count(old(queue)@, old(buf)@.len()),
        final(queue)@ == old(queue)@.skip(count as int),
        final(buf)@ == old(queue)@.take(count as int) + old(buf)@.skip(count as int),
{
    let limit: usize = buf.len();
    let mut count: usize = 0;
    while count < limit && queue.len() > 0
        invariant
            limit == old(buf)@.len(),
            buf@.len() == limit,
            count <= limit,
            count <= old(queue)@.len(),
            queue@ == old(queue)@.skip(count as int),
            buf@ == old(queue)@.take(count as int) + old(buf)@.skip(count as int),
        decreases limit - count,
    {
        let popped = queue.pop_front();
        if let Some(byte) = popped {
            buf[count] = byte;
            count += 1;
            assert(queue@ =~= old(queue)@.skip(count as int));
            assert(buf@ =~= old(queue)@.take(count as int) + old(buf)@.skip(count as int));
        }
    }
    count
}

/// Appends every byte of `buf` to `queue`, in order, and returns how many
/// were appended, which is all of them.
pub fn write_to_queue(queue: &mut VecDeque<u8>, buf: &[u8]) -> (count: usize)
    ensures
        count == buf@.len(),
        final(queue)@ == old(queue)@ + buf@,
{
    let limit: usize = buf.len();
    let mut count: usize = 0;
    while count < limit
        invariant
            limit == buf@.len(),
            count <= limit,
            queue@ == old(queue)@ + buf@.take(count as int),
        decreases limit - count,
    {
        queue.push_back(buf[count]);
        count += 1;
        assert(queue@ =~= old(queue)@ + buf@.take(count as int));
    }
    assert(buf@.take(limit as int) =~= buf@);
    count
}

} // verus!
