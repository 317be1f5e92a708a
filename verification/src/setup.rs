//! Setting a socket up: open it, find the interface's index, bind.
//!
//! A [`Binder`] holds the one system call that is due. The driver makes
//! the call and hands the kernel's answer to [`Binder::step`], which
//! decides what follows: the next call, a bound socket, or a failure
//! together with the descriptor that has to be closed.

use crate::addr::LinkAddr;
use crate::error::SockError;
use crate::sock::RawSock;
use crate::sys::{index_query, is_raw_nonblocking, packet_family, siocgifindex, NAME_CAPACITY};
use vstd::prelude::*;

verus! {

/// A system call for the driver to make, with every argument filled in.
#[derive(Clone, Copy, Debug, PartialEq, Eq)]
pub enum Syscall {
    /// `socket(domain, kind, protocol)`.
    Socket { domain: i32, kind: i32, protocol: i32 },
    /// `ioctl(fd, request, ..)` on an interface request that carries
    /// `name` and is zero elsewhere.
    IfIndex { fd: i32, request: u64, name: [u8; NAME_CAPACITY] },
    /// `bind(fd, addr, ..)`.
    Bind { fd: i32, addr: LinkAddr },
}

/// How the kernel answered a call.
#[derive(Clone, Copy, Debug, PartialEq, Eq)]
pub struct Reply {
    /// What the call returned.
    pub ret: i32,
    /// The error number that the call left behind. Read only where `ret`
    /// is negative.
    pub errno: i32,
    /// The interface index found in the request after the call. Read only
    /// after an index query that succeeded.
    pub ifindex: i32,
}

/// What a binder knows: the call that is due, and what later calls are
/// made from.
#[derive(Clone, Copy, Debug, PartialEq, Eq)]
pub struct BinderState {
    /// The call that is due.
    pub call: Syscall,
    /// The protocol selector that the socket is made for.
    pub protocol: i32,
    /// The interface name, zero-padded to the size of the kernel's field.
    pub name: [u8; NAME_CAPACITY],
}

/// Where an answer leads.
pub enum Outcome {
    /// Another call is due.
    Call(BinderState),
    /// The socket with this descriptor is bound.
    Bound(i32),
    /// Setup failed with `error`. `release` is the descriptor that was
    /// open by then and has to be closed.
    Failed { error: SockError, release: Option<i32> },
}

impl BinderState {
    /// Whether this is where setup begins for `protocol` and `name`:
    /// a raw, non-blocking packet socket is to be opened, and nothing else
    /// has been asked for.
    pub open spec fn begins(self, protocol: i32, name: Seq<u8>) -> bool {
        &&& self.call matches Syscall::Socket { domain, kind, protocol: filter }
        &&& domain == packet_family()
        &&& is_raw_nonblocking(kind)
        &&& filter == protocol
        &&& self.protocol == protocol
        &&& self.name@ == crate::opts::padded(name)
    }

    /// What holds of every state that setup passes through: the name is
    /// terminated, sockets are opened raw and non-blocking, and the later
    /// calls go to a descriptor that the kernel handed out.
    pub open spec fn wf(self) -> bool {
        &&& self.name@[NAME_CAPACITY - 1] == 0
        &&& match self.call {
            Syscall::Socket { domain, kind, protocol } => {
                &&& domain == packet_family()
                &&& is_raw_nonblocking(kind)
                &&& protocol == self.protocol
            },
            Syscall::IfIndex { fd, request, name } => {
                &&& fd >= 0
                &&& request == index_query()
                &&& name == self.name
            },
            Syscall::Bind { fd, addr } => {
                &&& fd >= 0
                &&& addr == LinkAddr::binding(self.protocol, addr.ifindex)
            },
        }
    }

    /// The descriptor that the due call works on, if a socket is open.
    pub open spec fn descriptor(self) -> Option<i32> {
        match self.call {
            Syscall::Socket { .. } => None,
            Syscall::IfIndex { fd, .. } => Some(fd),
            Syscall::Bind { fd, .. } => Some(fd),
        }
    }

    /// Where `reply`, the answer to the due call, leads. A negative
    /// return value ends setup with the kernel's error.
    pub open spec fn step(self, reply: Reply) -> Outcome {
        if reply.ret < 0 {
            Outcome::Failed {
                error: SockError::Os { code: reply.errno },
                release: self.descriptor(),
            }
        } else {
            match self.call {
                Syscall::Socket { .. } => Outcome::Call(
                    BinderState {
                        call: Syscall::IfIndex {
                            fd: reply.ret,
                            request: index_query(),
                            name: self.name,
                        },
                        ..self
                    },
                ),
                Syscall::IfIndex { fd, .. } => Outcome::Call(
                    BinderState {
                        call: Syscall::Bind {
                            fd,
                            addr: LinkAddr::binding(self.protocol, reply.ifindex),
                        },
                        ..self
                    },
                ),
                Syscall::Bind { fd, .. } => Outcome::Bound(fd),
            }
        }
    }

    /// Where a run of answers leads, each answering the call that was due
    /// when it came. Answers that come after the end are not read.
    pub open spec fn run(self, replies: Seq<Reply>) -> Outcome
        decreases replies.len(),
    {
        if replies.len() == 0 {
            Outcome::Call(self)
        } else {
            match self.step(replies[0]) {
                Outcome::Call(next) => next.run(replies.skip(1)),
                end => end,
            }
        }
    }

    /// The calls that are made over a run of answers, in order: the due
    /// call, and one more after each answer that does not end setup.
    pub open spec fn calls(self, replies: Seq<Reply>) -> Seq<Syscall>
        decreases replies.len(),
    {
        if replies.len() == 0 {
            seq![self.call]
        } else {
            match self.step(replies[0]) {
                Outcome::Call(next) => seq![self.call] + next.calls(replies.skip(1)),
                _ => seq![self.call],
            }
        }
    }
}

/// A socket on its way to being bound.
#[derive(Debug)]
pub struct Binder {
    state: BinderState,
}

/// What the driver does after an answer.
#[derive(Debug)]
pub enum Progress {
    /// Make the call that the binder holds, and answer it.
    Call(Binder),
    /// Register the socket for readiness events; it is ready for use.
    Bound(RawSock),
    /// Close `release`, if there is one, and give up with `error`.
    Failed { error: SockError, release: Option<i32> },
}

impl View for Binder {
    type V = BinderState;

    closed spec fn view(&self) -> BinderState {
        self.state
    }
}

impl View for Progress {
    type V = Outcome;

    open spec fn view(&self) -> Outcome {
        match *self {
            Progress::Call(binder) => Outcome::Call(binder@),
            Progress::Bound(sock) => Outcome::Bound(sock.descriptor()),
            Progress::Failed { error, release } => Outcome::Failed { error, release },
        }
    }
}

impl Binder {
    #[verifier::type_invariant]
    spec fn inv(self) -> bool {
        self.state.wf()
    }

    /// A binder at the start of setup.
    pub(crate) fn start(state: BinderState) -> (b: Binder)
        requires
            state.wf(),
        ensures
            b@ == state,
    {
        Binder { state }
    }

    /// The call that is due. Asking does not move the binder on, and
    /// finds it in order.
    pub fn request(&self) -> (call: Syscall)
        ensures
            call == self@.call,
            self@.wf(),
    {
        proof {
            use_type_invariant(self);
        }
        self.state.call
    }

    /// Takes the kernel's answer to the due call and decides what follows.
    pub fn step(self, reply: Reply) -> (p: Progress)
        ensures
            p@ == self@.step(reply),
    {
        proof {
            use_type_invariant(&self);
        }
        let state = self.state;
        match state.call {
            Syscall::Socket { .. } => {
                if reply.ret < 0 {
                    Progress::Failed { error: SockError::Os { code: reply.errno }, release: None }
                } else {
                    let call = Syscall::IfIndex {
                        fd: reply.ret,
                        request: siocgifindex(),
                        name: state.name,
                    };
                    Progress::Call(
                        Binder {
                            state: BinderState { call, protocol: state.protocol, name: state.name },
                        },
                    )
                }
            },
            Syscall::IfIndex { fd, .. } => {
                if reply.ret < 0 {
                    Progress::Failed {
                        error: SockError::Os { code: reply.errno },
                        release: Some(fd),
                    }
                } else {
                    let call = Syscall::Bind {
                        fd,
                        addr: LinkAddr::new(state.protocol, reply.ifindex),
                    };
                    Progress::Call(
                        Binder {
                            state: BinderState { call, protocol: state.protocol, name: state.name },
                        },
                    )
                }
            },
            Syscall::Bind { fd, .. } => {
                if reply.ret < 0 {
                    Progress::Failed {
                        error: SockError::Os { code: reply.errno },
                        release: Some(fd),
                    }
                } else {
                    Progress::Bound(RawSock::wrap(fd))
                }
            },
        }
    }
}

} // verus!

verus! {

/// Setup begins in an orderly state, with no socket open yet.
pub proof fn beginning_is_orderly(b: BinderState, protocol: i32, name: Seq<u8>)
    requires
        b.begins(protocol, name),
        name.len() < NAME_CAPACITY,
    ensures
        b.wf(),
        b.descriptor() is None,
{
}

/// One answer leads from an orderly state to an orderly one. A call that
/// succeeded is followed by the next call, carrying the same protocol and
/// name, or by the bound socket on the descriptor that the kernel handed
/// out. A call that failed ends setup with the kernel's error and with
/// the descriptor to close, if one was open.
pub proof fn step_keeps_order(b: BinderState, reply: Reply)
    requires
        b.wf(),
    ensures
        match b.step(reply) {
            Outcome::Call(next) => {
                &&& reply.ret >= 0
                &&& next.wf()
                &&& next.protocol == b.protocol
                &&& next.name == b.name
                &&& next.descriptor() == Some(
                    if b.call is Socket {
                        reply.ret
                    } else {
                        b.descriptor()->0
                    },
                )
            },
            Outcome::Bound(fd) => reply.ret >= 0 && fd >= 0 && b.descriptor() == Some(fd),
            Outcome::Failed { error, release } => {
                &&& reply.ret < 0
                &&& error == SockError::Os { code: reply.errno }
                &&& release == b.descriptor()
            },
        },
{
}

/// Where the kernel accepts every call, setup succeeds. Three calls are
/// made, in this order: a raw packet socket is opened, non-blocking from
/// the outset and filtered to the protocol; the index of the named
/// interface is asked for, with the name zero-padded; the socket is bound
/// to the family, the protocol in network order and the index that the
/// kernel found. The bound socket is the one that the first call opened.
pub proof fn answered_calls_bind(
    b: BinderState,
    protocol: i32,
    name: Seq<u8>,
    opened: Reply,
    resolved: Reply,
    bound: Reply,
)
    requires
        b.begins(protocol, name),
        opened.ret >= 0,
        resolved.ret >= 0,
        bound.ret >= 0,
    ensures
        ({
            let replies = seq![opened, resolved, bound];
            &&& b.run(replies) == Outcome::Bound(opened.ret)
            &&& b.calls(replies).len() == 3
            &&& b.calls(replies)[0] matches Syscall::Socket { domain, kind, protocol: filter }
            &&& domain == packet_family() && is_raw_nonblocking(kind) && filter == protocol
            &&& b.calls(replies)[1] matches Syscall::IfIndex { fd, request, name: field }
            &&& fd == opened.ret && request == index_query() && field@ == crate::opts::padded(name)
            &&& b.calls(replies)[2] == Syscall::Bind {
                fd: opened.ret,
                addr: LinkAddr::binding(protocol, resolved.ifindex),
            }
        }),
{
    let replies = seq![opened, resolved, bound];
    let second = b.step(opened)->Call_0;
    let third = second.step(resolved)->Call_0;
    assert(replies.skip(1)[0] == resolved);
    assert(replies.skip(1).skip(1)[0] == bound);
    assert(replies.skip(1).skip(1).skip(1).len() == 0);
    assert(b.run(replies) == second.run(replies.skip(1)));
    assert(second.run(replies.skip(1)) == third.run(replies.skip(1).skip(1)));
    assert(b.calls(replies) == seq![b.call] + second.calls(replies.skip(1)));
    assert(second.calls(replies.skip(1)) == seq![second.call] + third.calls(
        replies.skip(1).skip(1),
    ));
    assert(third.calls(replies.skip(1).skip(1)) == seq![third.call]);
}

/// A failure leaves nothing open. Whatever the kernel answers, setup that
/// ends in failure names the descriptor that the first call opened, so
/// that it is closed; it names none only where the first call itself
/// failed and there is nothing to close. Setup that succeeds binds that
/// same descriptor. No more than three calls are ever made.
pub proof fn failure_leaves_nothing_open(
    b: BinderState,
    protocol: i32,
    name: Seq<u8>,
    replies: Seq<Reply>,
)
    requires
        b.begins(protocol, name),
        name.len() < NAME_CAPACITY,
        replies.len() > 0,
    ensures
        match b.run(replies) {
            Outcome::Call(next) => next.wf() && next.descriptor() == Some(replies[0].ret),
            Outcome::Bound(fd) => fd >= 0 && fd == replies[0].ret,
            Outcome::Failed { error, release } => {
                &&& error is Os
                &&& release == if replies[0].ret < 0 {
                    None
                } else {
                    Some(replies[0].ret)
                }
            },
        },
        b.calls(replies).len() <= 3,
{
    beginning_is_orderly(b, protocol, name);
    step_keeps_order(b, replies[0]);
    if let Outcome::Call(second) = b.step(replies[0]) {
        let rest = replies.skip(1);
        assert(b.run(replies) == second.run(rest));
        assert(b.calls(replies) == seq![b.call] + second.calls(rest));
        if rest.len() > 0 {
            step_keeps_order(second, rest[0]);
            if let Outcome::Call(third) = second.step(rest[0]) {
                let last = rest.skip(1);
                assert(second.run(rest) == third.run(last));
                assert(second.calls(rest) == seq![second.call] + third.calls(last));
                if last.len() > 0 {
                    step_keeps_order(third, last[0]);
                }
            }
        }
    }
}

} // verus!
