//! The dispatch/poll worker pattern: a dedicated thread owns an expensive
//! resource and a pair of channels; the owning side submits one request at a
//! time and polls for the response without ever blocking.
//!
//! This module holds the owning side's protocol state and its rules — at
//! most one request in flight, busy dispatches submit nothing, a consumed
//! response is never delivered twice. The thread itself and the blocking
//! receive loop live with the embedding program; they hand this type the
//! channel endpoints at construction.

use vstd::prelude::*;

verus! {

#[verifier::external_type_specification]
#[verifier::external_body]
#[verifier::reject_recursive_types(T)]
pub struct ExSender<T>(std::sync::mpsc::Sender<T>);

#[verifier::external_type_specification]
#[verifier::external_body]
#[verifier::reject_recursive_types(T)]
pub struct ExReceiver<T>(std::sync::mpsc::Receiver<T>);

/// What one non-blocking look at a channel can find.
pub enum ChannelPoll<T> {
    /// A value was waiting.
    Ready(T),
    /// Nothing yet; the sender is still alive.
    NothingYet,
    /// The other endpoint is gone; nothing will ever arrive.
    Closed,
}

/// Relies on `std::sync::mpsc::Sender::send`: queues the value for the
/// receiving thread, failing exactly when the receiver has been dropped.
#[verifier::external_body]
fn send_value<T>(tx: &std::sync::mpsc::Sender<T>, value: T) -> (accepted: bool) {
    tx.send(value).is_ok()
}

/// Relies on `std::sync::mpsc::Receiver::try_recv`: never blocks; yields a
/// queued value, or nothing yet, or the news that the sender is gone.
#[verifier::external_body]
fn try_recv_value<T>(rx: &std::sync::mpsc::Receiver<T>) -> (r: ChannelPoll<T>) {
    match rx.try_recv() {
        Ok(v) => ChannelPoll::Ready(v),
        Err(std::sync::mpsc::TryRecvError::Empty) => ChannelPoll::NothingYet,
        Err(std::sync::mpsc::TryRecvError::Disconnected) => ChannelPoll::Closed,
    }
}

/// Whether a worker is between a dispatch and the matching response.
#[derive(Clone, Copy, PartialEq, Eq, Structural, Debug)]
pub enum WorkerState {
    /// No request in flight; the next dispatch will be submitted.
    Idle,
    /// A request is in flight; dispatches are refused until a poll
    /// returns the response.
    Pending,
}

/// Why a dispatch submitted nothing.
#[derive(Clone, Copy, PartialEq, Eq, Structural, Debug)]
pub enum DispatchError {
    /// A request is already in flight. Expected under load; the caller
    /// skips this round and keeps the frame for itself.
    Busy,
    /// The worker thread is gone. Permanent: no later dispatch will be
    /// submitted either.
    Closed,
}

/// The owning side of one worker thread: a request channel, a response
/// channel, and the at-most-one-in-flight bookkeeping.
///
/// `dispatch` submits a request only when the worker is idle; `poll` never
/// blocks and hands each response out exactly once.
#[verifier::reject_recursive_types(Req)]
#[verifier::reject_recursive_types(Resp)]
pub struct AsyncWorker<Req, Resp> {
    request_tx: std::sync::mpsc::Sender<Req>,
    response_rx: std::sync::mpsc::Receiver<Resp>,
    state: WorkerState,
    connected: bool,
    accepted: Ghost<nat>,
    completed: Ghost<nat>,
}

impl<Req, Resp> AsyncWorker<Req, Resp> {
    /// Whether a request is in flight.
    pub closed spec fn state(self) -> WorkerState {
        self.state
    }

    /// Whether both channel endpoints were still alive at the last use.
    pub closed spec fn connected(self) -> bool {
        self.connected
    }

    /// How many requests have been submitted to the worker thread.
    pub closed spec fn accepted(self) -> nat {
        self.accepted@
    }

    /// How many responses have been handed out by `poll`.
    pub closed spec fn completed(self) -> nat {
        self.completed@
    }

    /// The bookkeeping invariant: the worker has exactly one undelivered
    /// request exactly when it is pending, and never more than one.
    pub open spec fn wf(self) -> bool {
        self.accepted() == self.completed() + (if self.state() is Pending {
            1nat
        } else {
            0nat
        })
    }

    /// Wraps the endpoints of a freshly spawned worker thread: the sender
    /// the thread's receive loop reads from, and the receiver its responses
    /// arrive on. The new worker is idle with nothing in flight.
    pub fn new(
        request_tx: std::sync::mpsc::Sender<Req>,
        response_rx: std::sync::mpsc::Receiver<Resp>,
    ) -> (w: AsyncWorker<Req, Resp>)
        ensures
            w.wf(),
            w.state() is Idle,
            w.connected(),
            w.accepted() == 0,
            w.completed() == 0,
    {
        AsyncWorker {
            request_tx,
            response_rx,
            state: WorkerState::Idle,
            connected: true,
            accepted: Ghost(0),
            completed: Ghost(0),
        }
    }

    /// Whether the worker is ready for a new request: true exactly when
    /// nothing is in flight.
    pub fn is_finished(&self) -> (r: bool)
        ensures
            r == (self.state() is Idle),
    {
        match self.state {
            WorkerState::Idle => true,
            WorkerState::Pending => false,
        }
    }

    /// Submits a request if the worker is idle and its thread alive.
    ///
    /// While a request is in flight the new one is refused, not queued —
    /// the worker only ever sees the most recent request accepted while it
    /// was idle, and nothing is submitted here (`Busy`, the worker is left
    /// exactly as it was). A dead worker thread refuses permanently
    /// (`Closed`).
    pub fn dispatch(&mut self, req: Req) -> (r: Result<(), DispatchError>)
        requires
            old(self).wf(),
        ensures
            final(self).wf(),
            old(self).state() is Pending ==> {
                &&& r matches Err(e) && e is Busy
                &&& *final(self) == *old(self)
            },
            old(self).state() is Idle && !old(self).connected() ==> {
                &&& r matches Err(e) && e is Closed
                &&& *final(self) == *old(self)
            },
            old(self).state() is Idle && old(self).connected() ==> match r {
                Ok(()) => {
                    &&& final(self).state() is Pending
                    &&& final(self).connected()
                    &&& final(self).accepted() == old(self).accepted() + 1
                },
                Err(e) => {
                    &&& e is Closed
                    &&& final(self).state() is Idle
                    &&& !final(self).connected()
                    &&& final(self).accepted() == old(self).accepted()
                },
            },
            final(self).completed() == old(self).completed(),
            final(self).accepted() <= old(self).accepted() + 1,
    {
        match self.state {
            WorkerState::Pending => Err(DispatchError::Busy),
            WorkerState::Idle => {
                if !self.connected {
                    return Err(DispatchError::Closed);
                }
                if send_value(&self.request_tx, req) {
                    self.state = WorkerState::Pending;
                    proof {
                        self.accepted@ = self.accepted@ + 1;
                    }
                    Ok(())
                } else {
                    self.connected = false;
                    Err(DispatchError::Closed)
                }
            },
        }
    }

    /// Non-blocking check for a response.
    ///
    /// Nothing in flight means nothing to deliver: once a response has been
    /// consumed, every further poll returns nothing until the next
    /// dispatch. A pending worker either receives its response — handed out
    /// once, worker back to idle — or stays pending; if its thread is found
    /// dead it is marked disconnected and the response will never come.
    pub fn poll(&mut self) -> (r: Option<Resp>)
        requires
            old(self).wf(),
        ensures
            final(self).wf(),
            old(self).state() is Idle ==> r is None && *final(self) == *old(self),
            r is Some ==> {
                &&& old(self).state() is Pending
                &&& final(self).state() is Idle
                &&& final(self).completed() == old(self).completed() + 1
            },
            r is None ==> final(self).state() == old(self).state() && final(self).completed()
                == old(self).completed(),
            final(self).accepted() == old(self).accepted(),
            final(self).completed() <= old(self).completed() + 1,
    {
        match self.state {
            WorkerState::Idle => None,
            WorkerState::Pending => {
                match try_recv_value(&self.response_rx) {
                    ChannelPoll::Ready(resp) => {
                        self.state = WorkerState::Idle;
                        proof {
                            self.completed@ = self.completed@ + 1;
                        }
                        Some(resp)
                    },
                    ChannelPoll::NothingYet => None,
                    ChannelPoll::Closed => {
                        self.connected = false;
                        None
                    },
                }
            },
        }
    }
}

/// At most one request is ever in flight: however many dispatches and polls
/// a worker has seen, the requests its thread has been given never exceed
/// the responses consumed by more than one, and they exceed them exactly
/// when the worker is pending.
pub proof fn lemma_at_most_one_in_flight<Req, Resp>(w: AsyncWorker<Req, Resp>)
    requires
        w.wf(),
    ensures
        w.accepted() <= w.completed() + 1,
        (w.accepted() == w.completed() + 1) <==> (w.state() is Pending),
        (w.accepted() == w.completed()) <==> (w.state() is Idle),
{
}

} // verus!
