//! Draining a buffer into a stream socket, and flushing with a time limit.
//!
//! The socket is outside this library. The driver performs the partial
//! writes and the race between flush and timer, and reports each outcome
//! here.

use vstd::prelude::*;

verus! {

/// How long a flush may take, in milliseconds.
pub const FLUSH_TIMEOUT_MS: u64 = 500;

/// Why a buffer did not reach the peer.
#[derive(Clone, Copy, Debug, PartialEq, Eq, Structural)]
pub enum IoError {
    /// The socket refused a write.
    WriteFailed,
    /// The flush ended with an error of the socket.
    FlushFailed,
    /// The timer fired before the flush had ended.
    FlushTimedOut,
}

/// How the race between the flush and the timer ended.
#[derive(Clone, Copy, Debug, PartialEq, Eq, Structural)]
pub enum FlushRace {
    /// The flush ended first, without an error.
    Flushed,
    /// The flush ended first, with an error.
    FlushError,
    /// The timer fired first.
    TimerFired,
}

/// The result of a flush with a time limit, by the outcome of its race.
pub open spec fn flush_outcome(race: FlushRace) -> Result<(), IoError> {
    match race {
        FlushRace::Flushed => Ok(()),
        FlushRace::FlushError => Err(IoError::FlushFailed),
        FlushRace::TimerFired => Err(IoError::FlushTimedOut),
    }
}

/// The result of a flush with a time limit, by the outcome of its race.
pub fn flush_result(race: FlushRace) -> (r: Result<(), IoError>)
    ensures
        r == flush_outcome(race),
{
    match race {
        FlushRace::Flushed => Ok(()),
        FlushRace::FlushError => Err(IoError::FlushFailed),
        FlushRace::TimerFired => Err(IoError::FlushTimedOut),
    }
}

/// What the driver of a buffered write has to do next.
#[derive(Clone, Copy, Debug, PartialEq, Eq, Structural)]
pub enum WriteStep {
    /// Hand the bytes from position `from` on to the socket's partial write.
    Write { from: usize },
    /// All bytes are written: flush, with the time limit in milliseconds.
    Flush { timeout_ms: u64 },
}

/// The progress of writing one buffer.
#[derive(Clone, Copy, Debug, PartialEq, Eq, Structural)]
pub struct WriteCursor {
    /// The length of the buffer.
    pub len: usize,
    /// How many of its bytes the socket has taken.
    pub written: usize,
}

impl WriteCursor {
    /// No more bytes are written than the buffer has.
    pub open spec fn wf(self) -> bool {
        self.written <= self.len
    }

    /// How many bytes the socket has still to take.
    pub open spec fn remaining(self) -> nat {
        (self.len - self.written) as nat
    }

    /// What the cursor asks for in this state.
    pub open spec fn step(self) -> WriteStep {
        if self.written < self.len {
            WriteStep::Write { from: self.written }
        } else {
            WriteStep::Flush { timeout_ms: FLUSH_TIMEOUT_MS }
        }
    }

    /// The start of writing a buffer of `len` bytes.
    pub fn new(len: usize) -> (cursor: WriteCursor)
        ensures
            cursor == (WriteCursor { len, written: 0 }),
            cursor.wf(),
    {
        WriteCursor { len, written: 0 }
    }

    /// What the driver has to do next.
    pub fn next_step(&self) -> (step: WriteStep)
        ensures
            step == self.step(),
    {
        if self.written < self.len {
            WriteStep::Write { from: self.written }
        } else {
            WriteStep::Flush { timeout_ms: FLUSH_TIMEOUT_MS }
        }
    }

    /// Takes note of the outcome of one partial write: the number of bytes
    /// that the socket took, or its failure. A write of zero bytes is no
    /// error: the cursor stays where it is and the write is asked for again.
    /// A failure ends the writing with `WriteFailed`.
    pub fn record(&mut self, outcome: Result<usize, ()>) -> (r: Result<(), IoError>)
        requires
            old(self).wf(),
            outcome matches Ok(n) ==> n <= old(self).remaining(),
        ensures
            final(self).wf(),
            final(self).len == old(self).len,
            match outcome {
                Ok(n) => r is Ok && final(self).written == old(self).written + n,
                Err(_) => r == Err::<(), IoError>(IoError::WriteFailed) && final(self).written
                    == old(self).written,
            },
    {
        match outcome {
            Ok(n) => {
                self.written = self.written + n;
                Ok(())
            },
            Err(_) => Err(IoError::WriteFailed),
        }
    }
}

} // verus!
