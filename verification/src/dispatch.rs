//! The request dispatcher as a state machine.
//!
//! A [`Dispatch`] makes every decision of one logical call: whether an
//! outcome is retried and after what delay, when a body is read, and which
//! error a terminal outcome surfaces as. It performs no I/O. A transport
//! sends the request, then reports each thing that happens as an [`Event`]
//! to [`Dispatch::step`] and carries out the [`Action`] it gets back, until
//! the action is [`Action::Complete`] or [`Action::Fail`].

use crate::client::Puxbay;
use crate::error::{
    classify, error_message, error_payload, is_success, is_transient, status_is_success,
    status_is_transient, ErrorView, PuxbayError,
};
use vstd::arithmetic::power2::{lemma2_to64, lemma2_to64_rest, lemma_pow2_unfold, pow2};
use vstd::prelude::*;

verus! {

/// Where a call stands.
#[derive(Debug, Clone, Copy, PartialEq, Eq, Structural)]
pub enum Phase {
    /// An attempt is in flight; no response has arrived yet.
    Sending,
    /// A terminal non-success response with this status arrived; its body is
    /// being read.
    ReadingFailure(u16),
    /// A success response arrived; its body is being read.
    ReadingSuccess,
    /// The body of a success response is being decoded.
    Decoding,
    /// The call is over.
    Finished,
}

/// What the transport reports.
#[derive(Debug, Clone, PartialEq, Eq)]
pub enum Event {
    /// The transport failed: no response, or the body could not be read.
    TransportFailed(String),
    /// A response arrived with this status code.
    Status(u16),
    /// The body of the response was read.
    Body(String),
    /// The body was decoded into the caller's type.
    Decoded,
    /// The body does not decode into the caller's type.
    DecodeFailed(String),
}

/// Mathematical view of an [`Event`].
pub enum EventView {
    TransportFailed(Seq<char>),
    Status(u16),
    Body(Seq<char>),
    Decoded,
    DecodeFailed(Seq<char>),
}

impl View for Event {
    type V = EventView;

    open spec fn view(&self) -> EventView {
        match self {
            Event::TransportFailed(m) => EventView::TransportFailed(m@),
            Event::Status(code) => EventView::Status(*code),
            Event::Body(text) => EventView::Body(text@),
            Event::Decoded => EventView::Decoded,
            Event::DecodeFailed(m) => EventView::DecodeFailed(m@),
        }
    }
}

/// What the transport is to do next.
#[derive(Debug, Clone, PartialEq, Eq)]
pub enum Action {
    /// Wait this many seconds, then send the request again.
    RetryAfter(u64),
    /// Read the body of the response and report it.
    ReadBody,
    /// Decode the body just reported into the caller's type.
    Decode,
    /// The call succeeded: hand the decoded value to the caller.
    Complete,
    /// The call failed: hand this error to the caller.
    Fail(PuxbayError),
}

/// Mathematical view of an [`Action`].
pub enum ActionView {
    RetryAfter(nat),
    ReadBody,
    Decode,
    Complete,
    Fail(ErrorView),
}

impl View for Action {
    type V = ActionView;

    open spec fn view(&self) -> ActionView {
        match self {
            Action::RetryAfter(secs) => ActionView::RetryAfter(*secs as nat),
            Action::ReadBody => ActionView::ReadBody,
            Action::Decode => ActionView::Decode,
            Action::Complete => ActionView::Complete,
            Action::Fail(e) => ActionView::Fail(e@),
        }
    }
}

/// The state of one call: the index of the attempt in flight, the retry
/// budget, and the phase.
#[derive(Debug, Clone, PartialEq, Eq)]
pub struct Dispatch {
    attempt: u32,
    max_retries: u32,
    phase: Phase,
}

/// Mathematical view of a [`Dispatch`].
pub struct DispatchView {
    pub attempt: nat,
    pub max_retries: nat,
    pub phase: Phase,
}

impl View for Dispatch {
    type V = DispatchView;

    closed spec fn view(&self) -> DispatchView {
        DispatchView {
            attempt: self.attempt as nat,
            max_retries: self.max_retries as nat,
            phase: self.phase,
        }
    }
}

/// Seconds to wait after attempt `attempt` (counted from 0) before the next
/// one: `2^attempt`, held at the largest 64-bit value from attempt 64 on.
pub open spec fn backoff_delay(attempt: nat) -> nat {
    if attempt < 64 {
        pow2(attempt)
    } else {
        u64::MAX as nat
    }
}

/// The state of a call whose first attempt has just been sent.
pub open spec fn initial(max_retries: nat) -> DispatchView {
    DispatchView { attempt: 0, max_retries, phase: Phase::Sending }
}

/// Whether the budget allows another attempt.
pub open spec fn can_retry(s: DispatchView) -> bool {
    s.attempt < s.max_retries
}

/// Ends the call with an error.
pub open spec fn fail(s: DispatchView, e: ErrorView) -> (DispatchView, ActionView) {
    (DispatchView { phase: Phase::Finished, ..s }, ActionView::Fail(e))
}

/// Schedules the next attempt.
pub open spec fn retry(s: DispatchView) -> (DispatchView, ActionView) {
    (
        DispatchView { attempt: s.attempt + 1, ..s },
        ActionView::RetryAfter(backoff_delay(s.attempt)),
    )
}

/// Moves to another phase with an action for the transport.
pub open spec fn proceed(s: DispatchView, phase: Phase, action: ActionView) -> (
    DispatchView,
    ActionView,
) {
    (DispatchView { phase, ..s }, action)
}

/// The message of the decode failure raised for a success response without
/// a body.
pub open spec fn empty_body_message() -> Seq<char> {
    "empty response body"@
}

/// The transition function: the state after `e` and the action it calls for.
///
/// While sending, a transport failure or a transient status (429, 5xx) is
/// retried as long as the budget lasts. On the last attempt a transport
/// failure ends the call, and any status is treated as terminal. A terminal
/// non-success status has its body read and is then classified. A success
/// status has its body read, and decoded unless it is empty. An event that
/// does not belong to the phase ends the call with the unknown error.
pub open spec fn step(s: DispatchView, e: EventView) -> (DispatchView, ActionView) {
    match s.phase {
        Phase::Sending => match e {
            EventView::TransportFailed(m) => if can_retry(s) {
                retry(s)
            } else {
                fail(s, ErrorView::Request(m))
            },
            EventView::Status(code) => if is_transient(code) && can_retry(s) {
                retry(s)
            } else if !is_success(code) {
                proceed(s, Phase::ReadingFailure(code), ActionView::ReadBody)
            } else {
                proceed(s, Phase::ReadingSuccess, ActionView::ReadBody)
            },
            _ => fail(s, ErrorView::Unknown),
        },
        Phase::ReadingFailure(code) => match e {
            EventView::Body(text) => fail(s, classify(code, error_message(error_payload(text)))),
            EventView::TransportFailed(m) => fail(s, ErrorView::Request(m)),
            _ => fail(s, ErrorView::Unknown),
        },
        Phase::ReadingSuccess => match e {
            EventView::Body(text) => if text.len() == 0 {
                fail(s, ErrorView::Decode(empty_body_message()))
            } else {
                proceed(s, Phase::Decoding, ActionView::Decode)
            },
            EventView::TransportFailed(m) => fail(s, ErrorView::Request(m)),
            _ => fail(s, ErrorView::Unknown),
        },
        Phase::Decoding => match e {
            EventView::Decoded => proceed(s, Phase::Finished, ActionView::Complete),
            EventView::DecodeFailed(m) => fail(s, ErrorView::Decode(m)),
            _ => fail(s, ErrorView::Unknown),
        },
        Phase::Finished => fail(s, ErrorView::Unknown),
    }
}

/// Computes the delay before the attempt that follows attempt `attempt`.
pub fn backoff_secs(attempt: u32) -> (secs: u64)
    ensures
        secs == backoff_delay(attempt as nat),
{
    if attempt >= 64 {
        return u64::MAX;
    }
    let mut secs: u64 = 1;
    let mut i: u32 = 0;
    proof {
        lemma2_to64();
    }
    while i < attempt
        invariant
            i <= attempt < 64,
            secs == pow2(i as nat),
        decreases attempt - i,
    {
        proof {
            lemma_pow2_unfold((i + 1) as nat);
            lemma_pow2_below_64((i + 1) as nat);
        }
        secs = secs * 2;
        i = i + 1;
    }
    secs
}

/// Powers of two up to `2^63` fit in 64 bits.
proof fn lemma_pow2_below_64(e: nat)
    requires
        e < 64,
    ensures
        pow2(e) <= 0x8000_0000_0000_0000,
{
    lemma2_to64();
    lemma2_to64_rest();
    vstd::arithmetic::power2::lemma_pow2_strictly_increases(e, 64);
    if e < 63 {
        vstd::arithmetic::power2::lemma_pow2_strictly_increases(e, 63);
    }
}

impl Dispatch {
    /// The state of a call with the given retry budget whose first attempt
    /// has just been sent.
    pub fn new(max_retries: u32) -> (d: Dispatch)
        ensures
            d@ == initial(max_retries as nat),
    {
        Dispatch { attempt: 0, max_retries, phase: Phase::Sending }
    }

    /// Index of the attempt in flight, counted from 0.
    pub fn attempt(&self) -> (n: u32)
        ensures
            n == self@.attempt,
    {
        self.attempt
    }

    /// The retry budget: how many attempts may follow the first.
    pub fn max_retries(&self) -> (n: u32)
        ensures
            n == self@.max_retries,
    {
        self.max_retries
    }

    /// The phase of the call.
    pub fn phase(&self) -> (p: Phase)
        ensures
            p == self@.phase,
    {
        self.phase
    }

    /// Whether the call is over.
    pub fn is_finished(&self) -> (b: bool)
        ensures
            b == (self@.phase == Phase::Finished),
    {
        self.phase == Phase::Finished
    }

    fn fail(&mut self, e: PuxbayError) -> (action: Action)
        ensures
            (final(self)@, action@) == fail(old(self)@, e@),
    {
        self.phase = Phase::Finished;
        Action::Fail(e)
    }

    fn retry(&mut self) -> (action: Action)
        requires
            can_retry(old(self)@),
        ensures
            (final(self)@, action@) == retry(old(self)@),
    {
        let secs: u64 = backoff_secs(self.attempt);
        self.attempt = self.attempt + 1;
        Action::RetryAfter(secs)
    }

    fn proceed(&mut self, phase: Phase, action: Action) -> (out: Action)
        ensures
            (final(self)@, out@) == proceed(old(self)@, phase, action@),
    {
        self.phase = phase;
        action
    }

    /// Takes one event and returns what the transport is to do next.
    pub fn step(&mut self, event: Event) -> (action: Action)
        ensures
            (final(self)@, action@) == step(old(self)@, event@),
    {
        let can_retry: bool = self.attempt < self.max_retries;
        match self.phase {
            Phase::Sending => match event {
                Event::TransportFailed(m) => if can_retry {
                    self.retry()
                } else {
                    self.fail(PuxbayError::RequestError(m))
                },
                Event::Status(code) => if status_is_transient(code) && can_retry {
                    self.retry()
                } else if !status_is_success(code) {
                    self.proceed(Phase::ReadingFailure(code), Action::ReadBody)
                } else {
                    self.proceed(Phase::ReadingSuccess, Action::ReadBody)
                },
                _ => self.fail(PuxbayError::UnknownError),
            },
            Phase::ReadingFailure(code) => match event {
                Event::Body(text) => {
                    let e: PuxbayError = Puxbay::handle_error_response(code, text.as_str());
                    self.fail(e)
                },
                Event::TransportFailed(m) => self.fail(PuxbayError::RequestError(m)),
                _ => self.fail(PuxbayError::UnknownError),
            },
            Phase::ReadingSuccess => match event {
                Event::Body(text) => if text.as_str().unicode_len() == 0 {
                    self.fail(PuxbayError::DecodeError(String::from_str("empty response body")))
                } else {
                    self.proceed(Phase::Decoding, Action::Decode)
                },
                Event::TransportFailed(m) => self.fail(PuxbayError::RequestError(m)),
                _ => self.fail(PuxbayError::UnknownError),
            },
            Phase::Decoding => match event {
                Event::Decoded => self.proceed(Phase::Finished, Action::Complete),
                Event::DecodeFailed(m) => self.fail(PuxbayError::DecodeError(m)),
                _ => self.fail(PuxbayError::UnknownError),
            },
            Phase::Finished => self.fail(PuxbayError::UnknownError),
        }
    }
}

} // verus!
