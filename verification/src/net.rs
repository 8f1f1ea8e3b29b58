//! Network driver core: how the sender splits one tick's byte budget into
//! writes, and when the receiver keeps waiting or reading.

use vstd::prelude::*;

verus! {

/// Largest single write of the sender, and the receiver's read size.
pub const CHUNK_SIZE: usize = 64 * 1024;

/// The bytes the sender owes in the current tick and how many it has sent.
pub struct TickBudget {
    total: usize,
    sent: usize,
}

impl TickBudget {
    #[verifier::type_invariant]
    spec fn inv(self) -> bool {
        self.sent <= self.total
    }

    /// Bytes to send in this tick.
    pub closed spec fn total(self) -> nat {
        self.total as nat
    }

    /// Bytes sent so far in this tick.
    pub closed spec fn sent(self) -> nat {
        self.sent as nat
    }

    /// Size of the next write: what is left, at most `CHUNK_SIZE`.
    pub open spec fn chunk(self) -> nat {
        if self.total() - self.sent() < CHUNK_SIZE {
            (self.total() - self.sent()) as nat
        } else {
            CHUNK_SIZE as nat
        }
    }

    /// A budget of `total` bytes, none sent yet.
    pub fn new(total: usize) -> (r: Self)
        ensures
            r.total() == total,
            r.sent() == 0,
    {
        TickBudget { total, sent: 0 }
    }

    /// Bytes sent so far in this tick.
    pub fn sent_bytes(&self) -> (r: usize)
        ensures
            r == self.sent(),
            r <= self.total(),
    {
        proof {
            use_type_invariant(self);
        }
        self.sent
    }

    /// Whether bytes of this tick are still owed.
    pub fn has_remaining(&self) -> (r: bool)
        ensures
            r == (self.sent() < self.total()),
    {
        self.sent < self.total
    }

    /// Size of the next write.
    pub fn next_chunk(&self) -> (r: usize)
        ensures
            r == self.chunk(),
            self.total() - self.sent() <= CHUNK_SIZE ==> r == self.total() - self.sent(),
            self.total() - self.sent() > CHUNK_SIZE ==> r == CHUNK_SIZE,
            r <= CHUNK_SIZE,
            self.sent() < self.total() ==> r > 0,
    {
        proof {
            use_type_invariant(self);
        }
        let left = self.total - self.sent;
        if left < CHUNK_SIZE {
            left
        } else {
            CHUNK_SIZE
        }
    }

    /// Account for `n` bytes written, at most the size of the next write.
    pub fn record(&mut self, n: usize)
        requires
            n <= old(self).chunk(),
        ensures
            final(self).total() == old(self).total(),
            final(self).sent() == old(self).sent() + n,
            final(self).sent() <= final(self).total(),
    {
        proof {
            use_type_invariant(&*self);
        }
        self.sent = self.sent + n;
    }
}

/// The size of the next write is what the tick still owes, capped at
/// `CHUNK_SIZE`: all of it when it fits in one chunk, else a full chunk.
pub proof fn lemma_chunk_is_capped_remainder(b: TickBudget)
    requires
        b.sent() <= b.total(),
    ensures
        b.total() - b.sent() <= CHUNK_SIZE ==> b.chunk() == b.total() - b.sent(),
        b.total() - b.sent() > CHUNK_SIZE ==> b.chunk() == CHUNK_SIZE,
        b.chunk() <= b.total() - b.sent(),
        b.chunk() <= CHUNK_SIZE,
{
}

/// What the sender does with a grant from its rate limiter.
#[derive(PartialEq, Eq, Structural, Debug, Clone, Copy)]
pub enum SendStep {
    /// Nothing was granted: sleep briefly and ask again.
    Wait,
    /// Write this many bytes.
    Write(usize),
}

/// The sender's rule for a grant of `granted` whole bytes against a wish of
/// `want`: write what was granted, never more than was wanted, or wait when
/// nothing was granted.
pub fn send_step(want: usize, granted: usize) -> (r: SendStep)
    ensures
        r == if granted == 0 || want == 0 {
            SendStep::Wait
        } else if granted < want {
            SendStep::Write(granted)
        } else {
            SendStep::Write(want)
        },
{
    let n = if granted < want {
        granted
    } else {
        want
    };
    if n == 0 {
        SendStep::Wait
    } else {
        SendStep::Write(n)
    }
}

/// What a non-blocking `accept` on the listening socket produced.
#[derive(PartialEq, Eq, Structural, Debug, Clone, Copy)]
pub enum AcceptOutcome {
    /// The sender connected.
    Connected,
    /// No connection yet.
    WouldBlock,
    /// Any other error.
    Failed,
}

/// What the receiver does next while waiting for the sender.
#[derive(PartialEq, Eq, Structural, Debug, Clone, Copy)]
pub enum AcceptAction {
    /// Start draining the connection.
    Serve,
    /// Sleep briefly and try again.
    Retry,
    /// Give up on receiving.
    Quit,
}

/// The receiver's rule while waiting for the sender: serve once connected,
/// retry while nothing is there unless the run is stopping, quit on errors.
pub fn accept_action(outcome: AcceptOutcome, stopped: bool) -> (r: AcceptAction)
    ensures
        r == match outcome {
            AcceptOutcome::Connected => AcceptAction::Serve,
            AcceptOutcome::WouldBlock => if stopped {
                AcceptAction::Quit
            } else {
                AcceptAction::Retry
            },
            AcceptOutcome::Failed => AcceptAction::Quit,
        },
{
    match outcome {
        AcceptOutcome::Connected => AcceptAction::Serve,
        AcceptOutcome::WouldBlock => if stopped {
            AcceptAction::Quit
        } else {
            AcceptAction::Retry
        },
        AcceptOutcome::Failed => AcceptAction::Quit,
    }
}

/// What one read from the connection produced.
#[derive(PartialEq, Eq, Structural, Debug, Clone, Copy)]
pub enum ReadOutcome {
    /// This many bytes arrived; 0 means the sender closed the connection.
    Received(usize),
    /// Nothing arrived yet on a non-blocking read.
    WouldBlock,
    /// The read timeout passed with nothing arriving.
    TimedOut,
    /// Any other error.
    Failed,
}

/// Whether the receiver keeps draining after a read: it stops at end of
/// stream and on errors other than an empty wait.
pub fn keep_reading(outcome: ReadOutcome) -> (r: bool)
    ensures
        r == match outcome {
            ReadOutcome::Received(n) => n > 0,
            ReadOutcome::WouldBlock => true,
            ReadOutcome::TimedOut => true,
            ReadOutcome::Failed => false,
        },
{
    match outcome {
        ReadOutcome::Received(n) => n > 0,
        ReadOutcome::WouldBlock => true,
        ReadOutcome::TimedOut => true,
        ReadOutcome::Failed => false,
    }
}

} // verus!
