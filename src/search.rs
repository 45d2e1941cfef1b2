use vstd::prelude::*;

use crate::error::{rejects, TeiError};
use crate::text::{chars_of, word_is};

verus! {

/// What a non-blocking read of the inbound channel found.
#[derive(Debug)]
pub enum Poll {
    /// No line is waiting.
    Empty,
    /// A line arrived.
    Line(String),
    /// The channel is closed.
    Closed,
}

/// What the search does after a poll.
#[derive(Clone, Copy, Debug, PartialEq, Eq, Structural)]
pub enum PollOutcome {
    /// Go on searching.
    Continue,
    /// Send `readyok`, then go on searching.
    ReadyOk,
    /// End the current batch and announce the best move.
    Stop,
    /// End the session at once, with no further output.
    Quit,
}

/// The outcome of a poll during a search: `stop`, `quit` and `isready` are
/// obeyed, any other line is invalid input, a closed channel is `NoInput`.
pub open spec fn poll_outcome(line: Seq<char>) -> Option<PollOutcome> {
    if line == "stop"@ {
        Some(PollOutcome::Stop)
    } else if line == "quit"@ {
        Some(PollOutcome::Quit)
    } else if line == "isready"@ {
        Some(PollOutcome::ReadyOk)
    } else {
        None
    }
}

/// Decides what a search does with the result of a poll.
pub fn on_poll(p: &Poll) -> (r: Result<PollOutcome, TeiError>)
    ensures
        match p {
            Poll::Empty => r == Ok::<PollOutcome, TeiError>(PollOutcome::Continue),
            Poll::Closed => r matches Err(TeiError::NoInput),
            Poll::Line(l) => match poll_outcome(l@) {
                Some(o) => r == Ok::<PollOutcome, TeiError>(o),
                None => r is Err && rejects(r->Err_0, l@),
            },
        },
{
    match p {
        Poll::Empty => Ok(PollOutcome::Continue),
        Poll::Closed => Err(TeiError::NoInput),
        Poll::Line(l) => {
            let w = chars_of(l.as_str());
            if word_is(&w, "stop") {
                Ok(PollOutcome::Stop)
            } else if word_is(&w, "quit") {
                Ok(PollOutcome::Quit)
            } else if word_is(&w, "isready") {
                Ok(PollOutcome::ReadyOk)
            } else {
                Err(TeiError::InvalidInput(l.clone()))
            }
        },
    }
}

/// The number of visits between two polls of the inbound channel.
pub const POLL_INTERVAL: u64 = 10000;

/// Whether the search polls the inbound channel before the next visit.
pub fn poll_due(visits: u64) -> (r: bool)
    ensures
        r == (visits % POLL_INTERVAL == 0),
{
    visits % POLL_INTERVAL == 0
}

/// The number of visits in the first batch.
pub const FIRST_BATCH: u64 = 1000;

/// Batches stop growing beyond this size.
pub const MAX_BATCH: u64 = 0x7fff_ffff_ffff_ffff;

/// The size of the batch after one of `b` visits: a tenth larger, rounded down.
pub open spec fn next_batch(b: u64) -> u64 {
    if b > MAX_BATCH {
        b
    } else {
        (b + b / 10) as u64
    }
}

/// The size of batch number `round`, counting from zero.
pub open spec fn batch_size(round: nat) -> u64
    decreases round,
{
    if round == 0 {
        FIRST_BATCH
    } else {
        next_batch(batch_size((round - 1) as nat))
    }
}

/// Whether a search with move-time limit `limit` (none: no deadline) that has
/// run `elapsed` milliseconds must end: once more than seven tenths of the
/// limit have passed.
pub open spec fn over_time(limit: Option<u64>, elapsed: u64) -> bool {
    match limit {
        Some(m) => 10 * elapsed > 7 * m,
        None => false,
    }
}

/// The decisions of a search that runs in growing batches until a deadline or
/// a stop.
pub struct SearchDriver {
    limit: Option<u64>,
    round: Ghost<nat>,
    batch: u64,
    done: bool,
}

pub struct DriverView {
    pub limit: Option<u64>,
    pub round: nat,
    pub batch: u64,
    pub done: bool,
}

impl View for SearchDriver {
    type V = DriverView;

    closed spec fn view(&self) -> DriverView {
        DriverView { limit: self.limit, round: self.round@, batch: self.batch, done: self.done }
    }
}

impl SearchDriver {
    /// The batch size is the one of the current round.
    pub closed spec fn wf(&self) -> bool {
        self.batch == batch_size(self.round@)
    }

    /// A driver for a search with move-time limit `limit` in milliseconds, or
    /// with no deadline.
    pub fn new(limit: Option<u64>) -> (r: SearchDriver)
        ensures
            r.wf(),
            r@ == (DriverView { limit, round: 0, batch: FIRST_BATCH, done: false }),
    {
        SearchDriver { limit, round: Ghost(0), batch: FIRST_BATCH, done: false }
    }

    /// The number of visits in the current batch.
    pub fn batch(&self) -> (r: u64)
        requires
            self.wf(),
        ensures
            r == self@.batch,
            r == batch_size(self@.round),
    {
        self.batch
    }

    /// Whether the search has ended.
    pub fn is_done(&self) -> (r: bool)
        ensures
            r == self@.done,
    {
        self.done
    }

    /// Closes a batch, after which one progress report has been sent.
    /// `stopped` says that the batch ended early, on `stop` or because the tree
    /// is full. Returns whether the search ends now and the best move is to be
    /// announced; otherwise the next batch is a tenth larger.
    pub fn finish_batch(&mut self, stopped: bool, elapsed_ms: u64) -> (r: bool)
        requires
            old(self).wf(),
            !old(self)@.done,
        ensures
            final(self).wf(),
            r == (stopped || over_time(old(self)@.limit, elapsed_ms)),
            final(self)@.done == r,
            final(self)@.limit == old(self)@.limit,
            !r ==> final(self)@.round == old(self)@.round + 1,
            r ==> final(self)@.round == old(self)@.round,
    {
        let late = match self.limit {
            Some(m) => 10 * (elapsed_ms as u128) > 7 * (m as u128),
            None => false,
        };
        if stopped || late {
            self.done = true;
            return true;
        }
        let next: u64 = if self.batch > MAX_BATCH {
            self.batch
        } else {
            self.batch + self.batch / 10
        };
        self.round = Ghost(self.round@ + 1);
        self.batch = next;
        false
    }
}

} // verus!
