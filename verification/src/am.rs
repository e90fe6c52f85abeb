//! The readiness adapter: asynchronous reads and writes over a non-blocking
//! queue descriptor, as a state machine that a driver feeds with events.
//!
//! A call moves through `AwaitingReadiness` and `Attempting` until it is
//! `Complete`. The driver performs each [`Action`] that the machine hands
//! out and reports back with an [`Event`]. A driver that awaits its readiness
//! notifier and one that is polled from outside drive the same machine; only
//! the polled one ever reports `Pending`.

use vstd::prelude::*;
use crate::error::{Operation, QueueError};
use crate::mqueue::{MqdT, Request, RequestView};

verus! {

/// Which way a transfer moves data, and so which readiness it waits for.
#[derive(Clone, Copy, Debug, PartialEq, Eq, Hash, Structural)]
pub enum Direction {
    Read,
    Write,
}

impl Direction {
    /// The queue operation that a transfer in this direction attempts.
    pub open spec fn spec_operation(&self) -> Operation {
        match *self {
            Direction::Read => Operation::Receive,
            Direction::Write => Operation::Send,
        }
    }

    pub fn operation(&self) -> (op: Operation)
        ensures
            op == self.spec_operation(),
    {
        match self {
            Direction::Read => Operation::Receive,
            Direction::Write => Operation::Send,
        }
    }
}

/// Where one call stands.
#[derive(Clone, Copy, Debug, PartialEq, Eq)]
pub enum State {
    /// Waiting for the notifier to report the descriptor ready.
    AwaitingReadiness,
    /// The non-blocking attempt is with the kernel.
    Attempting,
    /// The call is over, with this result.
    Complete(Result<usize, QueueError>),
}

/// What the driver reports to the machine.
#[derive(Clone, Copy, Debug, PartialEq, Eq)]
pub enum Event {
    /// The notifier reports the descriptor ready.
    Ready,
    /// The notifier reports the descriptor not ready, and has registered the
    /// caller for a wake-up.
    Pending,
    /// The notifier itself failed, with this code.
    NotifierFailed(i32),
    /// The kernel's answer to the attempt: the number of bytes received (any
    /// number for a send), or its error code.
    Attempted(Result<usize, i32>),
}

/// What the driver is to do next.
#[derive(Debug, PartialEq, Eq)]
pub enum Action {
    /// Drop any readiness left from before, then ask the notifier for
    /// readiness in this direction.
    Await(Direction),
    /// Perform this request without blocking, and report its outcome.
    Attempt(Request),
    /// Nothing is to be done until the outstanding report arrives; a polled
    /// driver hands `Pending` to its poller.
    Suspend,
    /// Hand this result to the caller. The call is over.
    Finish(Result<usize, QueueError>),
}

/// An [`Action`] as a mathematical value.
pub ghost enum ActionView {
    Await(Direction),
    Attempt(RequestView),
    Suspend,
    Finish(Result<usize, QueueError>),
}

impl View for Action {
    type V = ActionView;

    open spec fn view(&self) -> ActionView {
        match *self {
            Action::Await(direction) => ActionView::Await(direction),
            Action::Attempt(request) => ActionView::Attempt(request@),
            Action::Suspend => ActionView::Suspend,
            Action::Finish(result) => ActionView::Finish(result),
        }
    }
}

/// One call as a mathematical value: what it transfers, and where it stands.
pub ghost struct TransferView {
    pub direction: Direction,
    pub fd: i32,
    /// The bytes to send; empty for a read.
    pub payload: Seq<u8>,
    /// The size of the caller's buffer; zero for a write.
    pub capacity: usize,
    pub state: State,
}

impl TransferView {
    /// A read into a buffer of `capacity` bytes, at its start.
    pub open spec fn reading(fd: i32, capacity: usize) -> TransferView {
        TransferView {
            direction: Direction::Read,
            fd,
            payload: Seq::empty(),
            capacity,
            state: State::AwaitingReadiness,
        }
    }

    /// A write of `payload` as one message, at its start.
    pub open spec fn writing(fd: i32, payload: Seq<u8>) -> TransferView {
        TransferView {
            direction: Direction::Write,
            fd,
            payload,
            capacity: 0,
            state: State::AwaitingReadiness,
        }
    }

    /// The request of every attempt of this call. A write sends the whole
    /// payload with priority 0; a read offers the whole buffer.
    pub open spec fn request(&self) -> RequestView {
        match self.direction {
            Direction::Read => RequestView::Receive { fd: self.fd, capacity: self.capacity },
            Direction::Write => RequestView::Send {
                fd: self.fd,
                message: self.payload,
                priority: 0,
            },
        }
    }

    /// What a successful attempt hands the caller: the length of the message
    /// received, or zero for a send, which has no length to report.
    pub open spec fn success(&self, n: usize) -> usize {
        match self.direction {
            Direction::Read => n,
            Direction::Write => 0,
        }
    }

    /// Whether the kernel code means "not ready after all".
    pub open spec fn would_block(&self, code: i32) -> bool {
        QueueError::spec_from_errno(self.direction.spec_operation(), code).spec_is_would_block()
    }

    pub open spec fn error(&self, code: i32) -> QueueError {
        QueueError::spec_from_errno(self.direction.spec_operation(), code)
    }

    pub open spec fn with_state(&self, state: State) -> TransferView {
        TransferView { state, ..*self }
    }

    /// A completed call never holds a would-block error.
    pub open spec fn wf(&self) -> bool {
        match self.state {
            State::Complete(Err(e)) => !e.spec_is_would_block() && e.wf(),
            _ => true,
        }
    }

    pub open spec fn is_complete(&self) -> bool {
        self.state is Complete
    }

    /// The machine: the state after `event`, and the action that answers it.
    ///
    /// - Awaiting readiness, `Ready` starts the attempt; `Pending` suspends;
    ///   a failed notifier ends the call with its error, unless the failure
    ///   is itself a would-block, which only renews the wait.
    /// - Attempting, an outcome ends the call, unless it is a would-block:
    ///   then the machine goes back to awaiting readiness, and does not
    ///   attempt again until the notifier has reported anew.
    /// - A report that the state does not wait for changes nothing.
    /// - A complete call stays complete, and repeats its result.
    pub open spec fn step(&self, event: Event) -> (TransferView, ActionView) {
        match self.state {
            State::Complete(result) => (*self, ActionView::Finish(result)),
            State::AwaitingReadiness => match event {
                Event::Ready => (
                    self.with_state(State::Attempting),
                    ActionView::Attempt(self.request()),
                ),
                Event::Pending => (*self, ActionView::Suspend),
                Event::NotifierFailed(code) => if self.would_block(code) {
                    (*self, ActionView::Await(self.direction))
                } else {
                    (
                        self.with_state(State::Complete(Err(self.error(code)))),
                        ActionView::Finish(Err(self.error(code))),
                    )
                },
                Event::Attempted(_) => (*self, ActionView::Await(self.direction)),
            },
            State::Attempting => match event {
                Event::Attempted(Ok(n)) => (
                    self.with_state(State::Complete(Ok(self.success(n)))),
                    ActionView::Finish(Ok(self.success(n))),
                ),
                Event::Attempted(Err(code)) => if self.would_block(code) {
                    (self.with_state(State::AwaitingReadiness), ActionView::Await(self.direction))
                } else {
                    (
                        self.with_state(State::Complete(Err(self.error(code)))),
                        ActionView::Finish(Err(self.error(code))),
                    )
                },
                _ => (*self, ActionView::Suspend),
            },
        }
    }

    /// The state after a whole sequence of events.
    pub open spec fn run(&self, events: Seq<Event>) -> TransferView
        decreases events.len(),
    {
        if events.len() == 0 {
            *self
        } else {
            self.step(events[0]).0.run(events.subrange(1, events.len() as int))
        }
    }

    /// How many attempts the machine hands out over a sequence of events.
    pub open spec fn attempts(&self, events: Seq<Event>) -> nat
        decreases events.len(),
    {
        if events.len() == 0 {
            0
        } else {
            let (next, action) = self.step(events[0]);
            let rest = next.attempts(events.subrange(1, events.len() as int));
            if action is Attempt {
                rest + 1
            } else {
                rest
            }
        }
    }
}

/// How many times the notifier reports readiness in a sequence of events.
pub open spec fn readiness_reports(events: Seq<Event>) -> nat
    decreases events.len(),
{
    if events.len() == 0 {
        0
    } else {
        let rest = readiness_reports(events.subrange(1, events.len() as int));
        if events[0] is Ready {
            rest + 1
        } else {
            rest
        }
    }
}

/// One asynchronous read or write in progress.
///
/// A call borrows the adapter that began it, and a write borrows the
/// caller's payload: while a call lives, the descriptor cannot be given
/// away for closing, and nothing is buffered.
#[derive(Debug)]
pub struct Transfer<'a> {
    queue: &'a AsyncMQueue,
    direction: Direction,
    payload: &'a [u8],
    capacity: usize,
    state: State,
}

impl<'a> View for Transfer<'a> {
    type V = TransferView;

    closed spec fn view(&self) -> TransferView {
        TransferView {
            direction: self.direction,
            fd: self.queue.descriptor(),
            payload: match self.direction {
                Direction::Read => Seq::empty(),
                Direction::Write => self.payload@,
            },
            capacity: self.capacity,
            state: self.state,
        }
    }
}

impl<'a> Transfer<'a> {
    /// The first action of every call: await readiness.
    pub fn start(&self) -> (action: Action)
        ensures
            action@ == ActionView::Await(self@.direction),
    {
        Action::Await(self.direction)
    }

    pub fn direction(&self) -> (direction: Direction)
        ensures
            direction == self@.direction,
    {
        self.direction
    }

    pub fn state(&self) -> (state: State)
        ensures
            state == self@.state,
    {
        self.state
    }

    pub fn is_complete(&self) -> (complete: bool)
        ensures
            complete == self@.is_complete(),
    {
        matches!(self.state, State::Complete(_))
    }

    /// The result of the call, once it is complete.
    pub fn result(&self) -> (result: Option<Result<usize, QueueError>>)
        ensures
            result == match self@.state {
                State::Complete(r) => Some(r),
                _ => None,
            },
    {
        match self.state {
            State::Complete(r) => Some(r),
            _ => None,
        }
    }

    fn request(&self) -> (request: Request)
        ensures
            request@ == self@.request(),
    {
        match self.direction {
            Direction::Read => self.queue.inner.read(self.capacity),
            Direction::Write => self.queue.inner.write(self.payload),
        }
    }

    fn finish(&mut self, result: Result<usize, QueueError>) -> (action: Action)
        ensures
            final(self)@ == old(self)@.with_state(State::Complete(result)),
            action@ == ActionView::Finish(result),
    {
        self.state = State::Complete(result);
        Action::Finish(result)
    }

    fn fail_or_retry(&mut self, code: i32) -> (action: Action)
        requires
            !(old(self)@.state is Complete),
        ensures
            old(self)@.would_block(code) ==> final(self)@ == old(self)@.with_state(
                State::AwaitingReadiness,
            ) && action@ == ActionView::Await(old(self)@.direction),
            !old(self)@.would_block(code) ==> final(self)@ == old(self)@.with_state(
                State::Complete(Err(old(self)@.error(code))),
            ) && action@ == ActionView::Finish(Err(old(self)@.error(code))),
    {
        let e = QueueError::from_errno(self.direction.operation(), code);
        if e.is_would_block() {
            self.state = State::AwaitingReadiness;
            Action::Await(self.direction)
        } else {
            self.finish(Err(e))
        }
    }

    /// Takes one event and answers with the next action, as
    /// [`TransferView::step`] says.
    pub fn step(&mut self, event: Event) -> (action: Action)
        ensures
            (final(self)@, action@) == old(self)@.step(event),
    {
        match self.state {
            State::Complete(result) => Action::Finish(result),
            State::AwaitingReadiness => match event {
                Event::Ready => {
                    self.state = State::Attempting;
                    Action::Attempt(self.request())
                },
                Event::Pending => Action::Suspend,
                Event::NotifierFailed(code) => self.fail_or_retry(code),
                Event::Attempted(_) => Action::Await(self.direction),
            },
            State::Attempting => match event {
                Event::Attempted(Ok(n)) => {
                    let n = match self.direction {
                        Direction::Read => n,
                        Direction::Write => 0,
                    };
                    self.finish(Ok(n))
                },
                Event::Attempted(Err(code)) => self.fail_or_retry(code),
                _ => Action::Suspend,
            },
        }
    }
}

/// Every step keeps a well-formed call well formed.
pub proof fn lemma_step_keeps_wf(t: TransferView, event: Event)
    requires
        t.wf(),
    ensures
        t.step(event).0.wf(),
{
}

/// Every sequence of events keeps a well-formed call well formed, and never
/// changes what the call transfers.
pub proof fn lemma_run_keeps_wf(t: TransferView, events: Seq<Event>)
    requires
        t.wf(),
    ensures
        t.run(events).wf(),
        t.run(events).with_state(t.state) == t,
    decreases events.len(),
{
    if events.len() > 0 {
        lemma_step_keeps_wf(t, events[0]);
        lemma_run_keeps_wf(t.step(events[0]).0, events.subrange(1, events.len() as int));
    }
}

/// A would-block never reaches the caller: whatever the events, no result
/// that the machine hands out, and no result that a call ends with, is a
/// would-block error.
pub proof fn law_would_block_is_absorbed(t: TransferView, events: Seq<Event>, event: Event)
    requires
        t.wf(),
    ensures
        match t.run(events).step(event).1 {
            ActionView::Finish(Err(e)) => !e.spec_is_would_block(),
            _ => true,
        },
        match t.run(events).state {
            State::Complete(Err(e)) => !e.spec_is_would_block(),
            _ => true,
        },
{
    lemma_run_keeps_wf(t, events);
}

/// Every error of an attempt other than a would-block ends the call at
/// once, and reaches the caller with its kind and code as the kernel gave
/// them: nothing is retried.
pub proof fn law_other_errors_end_the_call(t: TransferView, code: i32)
    requires
        t.state is Attempting,
        !t.would_block(code),
    ensures
        t.step(Event::Attempted(Err(code))).1 == ActionView::Finish(
            Err(QueueError::spec_from_errno(t.direction.spec_operation(), code)),
        ),
        t.step(Event::Attempted(Err(code))).0.state == State::Complete(
            Err(QueueError::spec_from_errno(t.direction.spec_operation(), code)),
        ),
        t.error(code).raw_code == code,
{
}

/// An attempt is only ever handed out in answer to a readiness report, to a
/// call that was awaiting one, and it is the request of that call.
pub proof fn law_attempt_follows_readiness(t: TransferView, event: Event)
    ensures
        t.step(event).1 is Attempt ==> event is Ready && t.state is AwaitingReadiness && t.step(
            event,
        ).1 == ActionView::Attempt(t.request()),
{
}

/// A readiness report that reaches a waiting call is never dropped: the
/// attempt follows.
pub proof fn law_readiness_is_not_lost(t: TransferView)
    requires
        t.state is AwaitingReadiness,
    ensures
        t.step(Event::Ready) == (
            t.with_state(State::Attempting),
            ActionView::Attempt(t.request()),
        ),
{
}

/// After a would-block the call waits for readiness again: the machine
/// asks for a fresh report and does not attempt on the old one.
pub proof fn law_would_block_waits_again(t: TransferView, code: i32)
    requires
        t.state is Attempting,
        t.would_block(code),
    ensures
        t.step(Event::Attempted(Err(code))) == (
            t.with_state(State::AwaitingReadiness),
            ActionView::Await(t.direction),
        ),
{
}

/// A call that is not ready suspends: while the notifier reports `Pending`
/// the state does not move and nothing is attempted.
pub proof fn law_pending_suspends(t: TransferView)
    requires
        t.state is AwaitingReadiness,
    ensures
        t.step(Event::Pending) == (t, ActionView::Suspend),
{
}

/// No busy loop: over any sequence of events the machine hands out at most
/// one attempt for each readiness report.
pub proof fn law_one_attempt_per_report(t: TransferView, events: Seq<Event>)
    ensures
        t.attempts(events) <= readiness_reports(events),
    decreases events.len(),
{
    if events.len() > 0 {
        law_one_attempt_per_report(t.step(events[0]).0, events.subrange(1, events.len() as int));
    }
}

/// A complete call is over: no event changes it, and every event is
/// answered with the same result.
pub proof fn law_complete_is_terminal(t: TransferView, events: Seq<Event>, event: Event)
    requires
        t.state is Complete,
    ensures
        t.run(events) == t,
        t.attempts(events) == 0,
        t.step(event) == (t, ActionView::Finish(t.state->Complete_0)),
    decreases events.len(),
{
    if events.len() > 0 {
        law_complete_is_terminal(t, events.subrange(1, events.len() as int), event);
    }
}

/// The events of `rounds` spurious readiness reports, each answered by a
/// would-block with `code`.
pub open spec fn spurious_rounds(rounds: nat, code: i32) -> Seq<Event>
    decreases rounds,
{
    if rounds == 0 {
        Seq::empty()
    } else {
        seq![Event::Ready, Event::Attempted(Err(code))] + spurious_rounds(
            (rounds - 1) as nat,
            code,
        )
    }
}

/// Spurious readiness costs nothing but the wait: after any number of
/// reports that each end in a would-block, the call is waiting as at its
/// start, and has attempted once per report.
pub proof fn law_spurious_readiness_is_retried(t: TransferView, rounds: nat, code: i32)
    requires
        t.state is AwaitingReadiness,
        t.would_block(code),
    ensures
        t.run(spurious_rounds(rounds, code)) == t,
        t.attempts(spurious_rounds(rounds, code)) == rounds,
    decreases rounds,
{
    let events = spurious_rounds(rounds, code);
    if rounds > 0 {
        let rest = spurious_rounds((rounds - 1) as nat, code);
        let tail = events.subrange(1, events.len() as int);
        assert(events[0] == Event::Ready);
        assert(tail[0] == Event::Attempted(Err::<usize, i32>(code)));
        assert(tail.subrange(1, tail.len() as int) =~= rest);
        let attempting = t.step(Event::Ready).0;
        assert(attempting.step(tail[0]).0 == t);
        law_spurious_readiness_is_retried(t, (rounds - 1) as nat, code);
        assert(attempting.run(tail) == t.run(rest));
        assert(attempting.attempts(tail) == t.attempts(rest));
    }
}

/// Forward progress: once the queue is truly ready, one report and one
/// attempt complete the call, however many spurious reports came before.
/// A read ends with the length that the kernel gave, a write with zero.
pub proof fn law_progress_after_spurious_readiness(
    t: TransferView,
    rounds: nat,
    code: i32,
    n: usize,
)
    requires
        t.state is AwaitingReadiness,
        t.would_block(code),
    ensures
        t.run(
            spurious_rounds(rounds, code) + seq![Event::Ready, Event::Attempted(Ok(n))],
        ).state == State::Complete(Ok(t.success(n))),
{
    let last = seq![Event::Ready, Event::Attempted(Ok::<usize, i32>(n))];
    law_spurious_readiness_is_retried(t, rounds, code);
    lemma_run_concat(t, spurious_rounds(rounds, code), last);
    let tail = last.subrange(1, last.len() as int);
    assert(tail[0] == Event::Attempted(Ok::<usize, i32>(n)));
    assert(tail.subrange(1, tail.len() as int).len() == 0);
    let attempting = t.step(last[0]).0;
    assert(attempting.run(tail) == attempting.step(tail[0]).0.run(
        tail.subrange(1, tail.len() as int),
    ));
}

/// Running two sequences one after the other is running their
/// concatenation.
pub proof fn lemma_run_concat(t: TransferView, first: Seq<Event>, second: Seq<Event>)
    ensures
        t.run(first + second) == t.run(first).run(second),
    decreases first.len(),
{
    if first.len() == 0 {
        assert(first + second =~= second);
    } else {
        let all = first + second;
        assert(all[0] == first[0]);
        assert(all.subrange(1, all.len() as int) =~= first.subrange(1, first.len() as int)
            + second);
        lemma_run_concat(t.step(first[0]).0, first.subrange(1, first.len() as int), second);
    }
}

/// What is written is what is sent, and what is received is what is read:
/// the one attempt of a write carries the caller's payload whole, and a
/// read hands the caller the very length that the kernel reported.
pub proof fn law_transfer_is_faithful(write: TransferView, read: TransferView, n: usize)
    requires
        write.direction == Direction::Write,
        write.state is AwaitingReadiness,
        read.direction == Direction::Read,
        read.state is Attempting,
    ensures
        write.step(Event::Ready).1 == ActionView::Attempt(
            RequestView::Send { fd: write.fd, message: write.payload, priority: 0 },
        ),
        read.step(Event::Attempted(Ok(n))).1 == ActionView::Finish(Ok(n)),
{
}

/// A queue descriptor set up for asynchronous use. It owns the descriptor;
/// every read and write on it is a [`Transfer`] of its own, and it buffers
/// nothing.
#[derive(Debug)]
pub struct AsyncMQueue {
    inner: MqdT,
}

impl AsyncMQueue {
    /// The raw descriptor of the queue that this adapter owns.
    pub closed spec fn descriptor(&self) -> i32 {
        self.inner.descriptor()
    }

    /// Takes ownership of a descriptor, which must have been opened
    /// non-blocking.
    pub fn from(inner: MqdT) -> (queue: Self)
        ensures
            queue.descriptor() == inner.descriptor(),
    {
        Self { inner }
    }

    /// The descriptor, still owned by the adapter.
    pub fn get_ref(&self) -> (inner: &MqdT)
        ensures
            inner.descriptor() == self.descriptor(),
    {
        &self.inner
    }

    /// Gives the descriptor back, for closing.
    pub fn into_inner(self) -> (inner: MqdT)
        ensures
            inner.descriptor() == self.descriptor(),
    {
        self.inner
    }

    /// Begins a read into a buffer of `capacity` bytes.
    pub fn read<'a>(&'a self, capacity: usize) -> (transfer: Transfer<'a>)
        ensures
            transfer@ == TransferView::reading(self.descriptor(), capacity),
    {
        let payload: &'a [u8] = &[];
        Transfer {
            queue: self,
            direction: Direction::Read,
            payload,
            capacity,
            state: State::AwaitingReadiness,
        }
    }

    /// Begins a write of `buf` as one message.
    pub fn write<'a>(&'a self, buf: &'a [u8]) -> (transfer: Transfer<'a>)
        ensures
            transfer@ == TransferView::writing(self.descriptor(), buf@),
    {
        Transfer {
            queue: self,
            direction: Direction::Write,
            payload: buf,
            capacity: 0,
            state: State::AwaitingReadiness,
        }
    }

    /// Flushing has nothing to do: every send that succeeded is in the
    /// queue already.
    pub fn poll_flush(&self) -> (result: Result<(), QueueError>)
        ensures
            result == Ok::<(), QueueError>(()),
    {
        Ok(())
    }

    /// Shutting down has nothing to do: the descriptor's lifetime alone
    /// governs the queue's availability.
    pub fn poll_shutdown(&self) -> (result: Result<(), QueueError>)
        ensures
            result == Ok::<(), QueueError>(()),
    {
        Ok(())
    }
}

} // verus!
