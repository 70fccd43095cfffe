//! A model of the concurrent recipe-writing protocol of the layered build.
//!
//! The layered build feeds its recipe to the subprocess on standard input
//! from a second thread while the invoking thread reads standard output.
//! The two sides meet at a bounded pipe buffer: the writer suspends when
//! the buffer is full, the reader drains it at its own pace. This module
//! models that exchange as the two sides taking turns on a bounded buffer
//! and proves that it always completes with the whole payload delivered in
//! order — even when the payload is larger than the buffer and the reader
//! is slow — so neither side blocks the other for good.

use vstd::prelude::*;

verus! {

/// Carries a payload through a bounded buffer of the given capacity, the
/// writer filling the buffer each turn and a (possibly slow) reader taking
/// at most `read_chunk` bytes each turn, until everything has been read.
/// The result is the payload, whole and in order; termination of the loop
/// is the no-deadlock argument.
pub fn pipe_transfer(payload: &Vec<u8>, capacity: usize, read_chunk: usize) -> (r: Vec<u8>)
    requires
        1 <= capacity,
        1 <= read_chunk,
    ensures
        r@ == payload@,
{
    let mut received: Vec<u8> = Vec::new();
    let mut buffer: Vec<u8> = Vec::new();
    let mut written: usize = 0;
    proof {
        assert(received@ + buffer@ =~= payload@.take(0));
    }
    while received.len() < payload.len()
        invariant
            1 <= capacity,
            1 <= read_chunk,
            written <= payload.len(),
            buffer.len() <= capacity,
            received@ + buffer@ == payload@.take(written as int),
        decreases payload.len() - received.len(),
    {
        // Writer's turn: fill the buffer while there is space and payload left.
        while buffer.len() < capacity && written < payload.len()
            invariant
                written <= payload.len(),
                buffer.len() <= capacity,
                received@ + buffer@ == payload@.take(written as int),
            decreases payload.len() - written,
        {
            let ghost bb = buffer@;
            let ghost w0 = written as int;
            buffer.push(payload[written]);
            written += 1;
            proof {
                assert(buffer@ == bb.push(payload@[w0]));
                assert(payload@.take(w0 + 1) =~= payload@.take(w0).push(payload@[w0]));
                assert(received@ + buffer@ =~= (received@ + bb).push(payload@[w0]));
                assert(received@ + buffer@ =~= payload@.take(written as int));
            }
        }
        proof {
            // The buffer cannot be empty here: either it was filled, or the
            // whole payload is written, and then everything not yet received
            // would have to sit in the buffer.
            if buffer@.len() == 0 {
                assert(received@ =~= payload@.take(written as int));
            }
        }
        let ghost b0 = buffer@.len();
        let ghost r0 = received@.len();
        // Reader's turn: drain up to `read_chunk` bytes.
        let mut taken: usize = 0;
        while taken < read_chunk && buffer.len() > 0
            invariant
                taken <= read_chunk,
                written <= payload.len(),
                buffer.len() <= capacity,
                received@ + buffer@ == payload@.take(written as int),
                received@.len() == r0 + taken,
                taken == 0 ==> buffer@.len() == b0,
            decreases read_chunk - taken,
        {
            let byte = buffer.remove(0);
            received.push(byte);
            taken += 1;
            proof {
                assert(received@ + buffer@ =~= payload@.take(written as int));
            }
        }
        proof {
            assert(b0 >= 1);
            assert(taken >= 1);
        }
    }
    proof {
        assert(received@.len() + buffer@.len() == written);
        assert(buffer@.len() == 0);
        assert(received@ =~= payload@);
    }
    received
}

} // verus!
