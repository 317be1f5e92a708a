//! One read or one write: wait until the socket is ready, try once, and
//! wait again if the kernel had nothing after all.
//!
//! A [`Transfer`] is the state of one such operation. It belongs to the
//! task that runs it and holds no part of the socket: dropping it at any
//! point leaves the socket as it was.

use crate::error::SockError;
use crate::sys::{eagain, ewouldblock, would_block};
use vstd::prelude::*;

verus! {

/// Which way the bytes go.
#[derive(Clone, Copy, Debug, PartialEq, Eq, Structural)]
pub enum Direction {
    /// From the socket into the caller's buffer.
    Read,
    /// From the caller's buffer to the socket.
    Write,
}

/// Where a transfer stands.
#[derive(Clone, Copy, Debug, PartialEq, Eq, Structural)]
pub enum IoState {
    /// Suspended until the reactor reports the socket ready.
    AwaitingReadiness,
    /// Ready was reported; one non-blocking call is being made.
    Attempting,
    /// Finished: this many bytes were moved.
    Done(usize),
    /// Finished: the kernel refused the call.
    Failed(SockError),
}

/// What happened since the last step.
#[derive(Clone, Copy, Debug, PartialEq, Eq)]
pub enum IoEvent {
    /// The reactor reported the socket ready.
    Ready,
    /// The call returned `ret`. `errno` is the error number that it left
    /// behind, read only where `ret` is negative.
    Completed { ret: isize, errno: i32 },
}

/// What the driver does next.
#[derive(Clone, Copy, Debug, PartialEq, Eq)]
pub enum IoAction {
    /// Suspend until the socket is reported ready in this direction. After
    /// an attempt that would have blocked, the report that led to it is
    /// stale and is not to be taken again.
    Await(Direction),
    /// Make one `recv` (to read) or `send` (to write) on `fd`, over the
    /// first `len` bytes of the caller's buffer.
    Attempt { dir: Direction, fd: i32, len: usize, flags: i32 },
    /// Hand this to the caller; the transfer is over.
    Return(Result<usize, SockError>),
}

/// The state of one read or one write.
#[derive(Clone, Copy, Debug, PartialEq, Eq)]
pub struct Transfer {
    /// Which way the bytes go.
    pub dir: Direction,
    /// The socket's descriptor.
    pub fd: i32,
    /// The length of the caller's buffer.
    pub len: usize,
    /// Where the transfer stands.
    pub state: IoState,
}

impl Transfer {
    /// A transfer that has not begun to wait.
    pub open spec fn begin(dir: Direction, fd: i32, len: usize) -> Transfer {
        Transfer { dir, fd, len, state: IoState::AwaitingReadiness }
    }

    /// Whether the transfer is over.
    pub open spec fn finished(self) -> bool {
        self.state is Done || self.state is Failed
    }

    /// What the driver has to do in this state.
    pub open spec fn due(self) -> IoAction {
        match self.state {
            IoState::AwaitingReadiness => IoAction::Await(self.dir),
            IoState::Attempting => IoAction::Attempt {
                dir: self.dir,
                fd: self.fd,
                len: self.len,
                flags: 0,
            },
            IoState::Done(n) => IoAction::Return(Ok(n)),
            IoState::Failed(error) => IoAction::Return(Err(error)),
        }
    }

    /// The state that `event` leads to.
    ///
    /// Readiness moves a waiting transfer to its attempt. The attempt's
    /// answer ends the transfer, unless the kernel says that the call
    /// would have blocked: then the transfer waits again. An event that
    /// does not answer what is due changes nothing.
    pub open spec fn after(self, event: IoEvent) -> Transfer {
        match (self.state, event) {
            (IoState::AwaitingReadiness, IoEvent::Ready) => Transfer {
                state: IoState::Attempting,
                ..self
            },
            (IoState::Attempting, IoEvent::Completed { ret, errno }) => if ret >= 0 {
                Transfer { state: IoState::Done(ret as usize), ..self }
            } else if would_block(errno) {
                Transfer { state: IoState::AwaitingReadiness, ..self }
            } else {
                Transfer { state: IoState::Failed(SockError::Os { code: errno }), ..self }
            },
            _ => self,
        }
    }

    /// The state after a run of events.
    pub open spec fn run(self, events: Seq<IoEvent>) -> Transfer
        decreases events.len(),
    {
        if events.len() == 0 {
            self
        } else {
            self.after(events[0]).run(events.skip(1))
        }
    }

    /// How many calls the driver is asked to make over a run of events:
    /// one each time readiness reaches a waiting transfer.
    pub open spec fn attempts(self, events: Seq<IoEvent>) -> nat
        decreases events.len(),
    {
        if events.len() == 0 {
            0
        } else {
            let here: nat = if self.state is AwaitingReadiness && events[0] is Ready {
                1
            } else {
                0
            };
            here + self.after(events[0]).attempts(events.skip(1))
        }
    }

    /// Where the transfer stands.
    pub fn state(&self) -> (state: IoState)
        ensures
            state == self.state,
    {
        self.state
    }

    /// What the driver has to do now.
    pub fn action(&self) -> (action: IoAction)
        ensures
            action == self.due(),
    {
        match self.state {
            IoState::AwaitingReadiness => IoAction::Await(self.dir),
            IoState::Attempting => IoAction::Attempt {
                dir: self.dir,
                fd: self.fd,
                len: self.len,
                flags: 0,
            },
            IoState::Done(n) => IoAction::Return(Ok(n)),
            IoState::Failed(error) => IoAction::Return(Err(error)),
        }
    }

    /// Takes an event and says what the driver has to do next.
    pub fn step(&mut self, event: IoEvent) -> (action: IoAction)
        ensures
            *final(self) == old(self).after(event),
            action == final(self).due(),
    {
        match (self.state, event) {
            (IoState::AwaitingReadiness, IoEvent::Ready) => {
                self.state = IoState::Attempting;
            },
            (IoState::Attempting, IoEvent::Completed { ret, errno }) => {
                if ret >= 0 {
                    self.state = IoState::Done(ret as usize);
                } else if errno == eagain() || errno == ewouldblock() {
                    self.state = IoState::AwaitingReadiness;
                } else {
                    self.state = IoState::Failed(SockError::Os { code: errno });
                }
            },
            _ => {},
        }
        self.action()
    }
}

} // verus!

verus! {

/// Whether `event` is the answer of a call that found nothing to do: the
/// kernel's way of saying that the readiness reported before was stale.
pub open spec fn blocked(event: IoEvent) -> bool {
    event matches IoEvent::Completed { ret, errno } && ret < 0 && would_block(errno)
}

/// Whether `events` is a run of stale wakeups and nothing else: readiness,
/// then an attempt that would have blocked, any number of times.
pub open spec fn spurious(events: Seq<IoEvent>) -> bool {
    &&& events.len() % 2 == 0
    &&& forall|i: int|
        0 <= i < events.len() ==> if i % 2 == 0 {
            events[i] is Ready
        } else {
            blocked(#[trigger] events[i])
        }
}

/// Running two runs of events one after the other is running them joined.
pub proof fn run_joins(t: Transfer, first: Seq<IoEvent>, second: Seq<IoEvent>)
    ensures
        t.run(first + second) == t.run(first).run(second),
        t.attempts(first + second) == t.attempts(first) + t.run(first).attempts(second),
    decreases first.len(),
{
    if first.len() == 0 {
        assert(first + second =~= second);
    } else {
        assert((first + second).skip(1) =~= first.skip(1) + second);
        run_joins(t.after(first[0]), first.skip(1), second);
    }
}

/// A transfer that is over stays as it is, whatever comes, and asks for no
/// further call.
pub proof fn finished_is_final(t: Transfer, events: Seq<IoEvent>)
    requires
        t.finished(),
    ensures
        t.run(events) == t,
        t.attempts(events) == 0,
    decreases events.len(),
{
    if events.len() > 0 {
        finished_is_final(t, events.skip(1));
    }
}

/// Stale wakeups are absorbed. A waiting transfer that meets any number of
/// them, each followed by an attempt that would have blocked, is waiting
/// again afterwards, unchanged: it has not failed and has not returned.
/// Each wakeup cost one call.
pub proof fn spurious_wakeups_are_absorbed(t: Transfer, events: Seq<IoEvent>)
    requires
        t.state is AwaitingReadiness,
        spurious(events),
    ensures
        t.run(events) == t,
        t.attempts(events) == events.len() / 2,
    decreases events.len(),
{
    if events.len() > 0 {
        let rest = events.skip(1).skip(1);
        assert(events[0] is Ready);
        assert(blocked(events[1]));
        assert(t.after(events[0]).after(events[1]) == t);
        assert(events.skip(1)[0] == events[1]);
        assert(spurious(rest)) by {
            assert forall|i: int| 0 <= i < rest.len() implies if i % 2 == 0 {
                rest[i] is Ready
            } else {
                blocked(#[trigger] rest[i])
            } by {
                assert(rest[i] == events[i + 2]);
                if i % 2 != 0 {
                    assert(blocked(events[i + 2]));
                }
            }
        }
        spurious_wakeups_are_absorbed(t, rest);
        let mid = t.after(events[0]);
        assert(t.run(events) == mid.run(events.skip(1)));
        assert(mid.run(events.skip(1)) == t.run(rest));
        assert(t.attempts(events) == 1 + mid.attempts(events.skip(1)));
        assert(mid.attempts(events.skip(1)) == t.attempts(rest));
    }
}

/// After any number of stale wakeups the transfer still completes: the
/// first attempt that the kernel accepts ends it with the count that the
/// kernel gave. One call was made for each wakeup and one for the last.
pub proof fn completes_after_spurious_wakeups(
    t: Transfer,
    events: Seq<IoEvent>,
    ret: isize,
    errno: i32,
)
    requires
        t.state is AwaitingReadiness,
        spurious(events),
        ret >= 0,
    ensures
        ({
            let all = events + seq![IoEvent::Ready, IoEvent::Completed { ret, errno }];
            &&& t.run(all).state == IoState::Done(ret as usize)
            &&& t.run(all).due() == IoAction::Return(Ok(ret as usize))
            &&& t.attempts(all) == events.len() / 2 + 1
        }),
{
    let last = seq![IoEvent::Ready, IoEvent::Completed { ret, errno }];
    spurious_wakeups_are_absorbed(t, events);
    run_joins(t, events, last);
    reveal_with_fuel(Transfer::run, 3);
    reveal_with_fuel(Transfer::attempts, 3);
    assert(last.skip(1)[0] == last[1]);
}

/// A short count is a result like any other. Whatever count the kernel
/// gives for an attempt, smaller than the buffer or not, ends the transfer
/// with that count and without an error.
pub proof fn partial_transfer_is_success(t: Transfer, ret: isize, errno: i32)
    requires
        t.state is Attempting,
        ret >= 0,
    ensures
        t.after(IoEvent::Completed { ret, errno }).state == IoState::Done(ret as usize),
        t.after(IoEvent::Completed { ret, errno }).due() == IoAction::Return(Ok(ret as usize)),
{
}

/// An error that is not "would block" ends the transfer with that very
/// error. Nothing that comes later changes it, and the one call that
/// failed is the only one that was asked for.
pub proof fn failure_is_returned_unchanged(
    t: Transfer,
    ret: isize,
    errno: i32,
    later: Seq<IoEvent>,
)
    requires
        t.state is AwaitingReadiness,
        ret < 0,
        !would_block(errno),
    ensures
        ({
            let all = seq![IoEvent::Ready, IoEvent::Completed { ret, errno }] + later;
            &&& t.run(all).state == IoState::Failed(SockError::Os { code: errno })
            &&& t.run(all).due() == IoAction::Return(Err(SockError::Os { code: errno }))
            &&& t.attempts(all) == 1
        }),
{
    let first = seq![IoEvent::Ready, IoEvent::Completed { ret, errno }];
    run_joins(t, first, later);
    assert(first.skip(1)[0] == first[1]);
    assert(t.run(first).state == IoState::Failed(SockError::Os { code: errno })
        && t.attempts(first) == 1) by {
        reveal_with_fuel(Transfer::run, 3);
        reveal_with_fuel(Transfer::attempts, 3);
    }
    finished_is_final(t.run(first), later);
}

/// A transfer that is found waiting has moved nothing. Every attempt made
/// so far was answered with "would block", none is under way, and all that
/// is due is to wait. So a task that is dropped while it waits leaves
/// nothing half done; and since a transfer holds no part of the socket,
/// the next one begins as the first did.
pub proof fn waiting_transfer_moved_nothing(t: Transfer, events: Seq<IoEvent>, k: int)
    requires
        t.run(events).state is AwaitingReadiness,
        0 <= k < events.len(),
        t.run(events.take(k)).state is Attempting,
        events[k] is Completed,
    ensures
        blocked(events[k]),
        t.run(events).due() == IoAction::Await(t.dir),
{
    let before = t.run(events.take(k));
    let rest = events.skip(k);
    assert(events =~= events.take(k) + rest);
    run_joins(t, events.take(k), rest);
    assert(rest[0] == events[k]);
    if !blocked(events[k]) {
        finished_is_final(before.after(rest[0]), rest.skip(1));
    }
    direction_is_kept(t, events);
}

/// No event changes which way a transfer goes, which socket it uses, or
/// how long the caller's buffer is.
pub proof fn direction_is_kept(t: Transfer, events: Seq<IoEvent>)
    ensures
        t.run(events).dir == t.dir,
        t.run(events).fd == t.fd,
        t.run(events).len == t.len,
    decreases events.len(),
{
    if events.len() > 0 {
        direction_is_kept(t.after(events[0]), events.skip(1));
    }
}

} // verus!
