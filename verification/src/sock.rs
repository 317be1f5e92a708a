//! The bound socket.

use crate::error::SockError;
use crate::opts::{name_buffer, SockOpts};
use crate::setup::{Binder, BinderState, Syscall};
use crate::sys::{af_packet, sock_nonblock, sock_raw};
use crate::transfer::{Direction, IoState, Transfer};
use vstd::prelude::*;

verus! {

/// A raw packet socket that is open, non-blocking and bound. It owns its
/// descriptor: there is no way to copy it.
#[derive(Debug)]
pub struct RawSock {
    fd: i32,
}

impl RawSock {
    #[verifier::type_invariant]
    spec fn inv(self) -> bool {
        self.fd >= 0
    }

    /// The socket's descriptor.
    pub closed spec fn descriptor(self) -> i32 {
        self.fd
    }

    /// Begins to set a socket up for `opts`.
    ///
    /// A name that would fill the kernel's name field is refused here,
    /// before any call is due: only a binder hands out calls, and none is
    /// made. Otherwise the binder asks first for a raw packet socket that
    /// is non-blocking from the moment it is opened.
    pub fn new(opts: SockOpts) -> (r: Result<Binder, SockError>)
        ensures
            match r {
                Ok(binder) => opts.fits() && binder@.begins(opts.protocol, opts.name()),
                Err(e) => !opts.fits() && e == SockError::NameTooLong,
            },
    {
        let name = match name_buffer(opts.intf) {
            Ok(name) => name,
            Err(e) => {
                return Err(e);
            },
        };
        let kind: i32 = sock_raw() | sock_nonblock();
        let call = Syscall::Socket { domain: af_packet(), kind, protocol: opts.protocol };
        Ok(Binder::start(BinderState { call, protocol: opts.protocol, name }))
    }

    /// Begins a read into `buf`. The buffer is left as it is: the bytes
    /// arrive with the call that the transfer asks for.
    pub fn read(&self, buf: &mut [u8]) -> (t: Transfer)
        ensures
            t == Transfer::begin(Direction::Read, self.descriptor(), old(buf)@.len() as usize),
            final(buf)@ == old(buf)@,
    {
        Transfer {
            dir: Direction::Read,
            fd: self.fd,
            len: buf.len(),
            state: IoState::AwaitingReadiness,
        }
    }

    /// Begins a write of `buf`.
    pub fn write(&self, buf: &[u8]) -> (t: Transfer)
        ensures
            t == Transfer::begin(Direction::Write, self.descriptor(), buf@.len() as usize),
    {
        Transfer {
            dir: Direction::Write,
            fd: self.fd,
            len: buf.len(),
            state: IoState::AwaitingReadiness,
        }
    }

    /// Takes charge of a descriptor that has just been bound.
    pub(crate) fn wrap(fd: i32) -> (sock: RawSock)
        requires
            fd >= 0,
        ensures
            sock.descriptor() == fd,
    {
        RawSock { fd }
    }

    /// The socket's descriptor, for the driver to register and to close.
    /// It is never negative.
    pub fn fd(&self) -> (fd: i32)
        ensures
            fd == self.descriptor(),
            fd >= 0,
    {
        proof {
            use_type_invariant(self);
        }
        self.fd
    }
}

} // verus!
