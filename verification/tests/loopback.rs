//! Whole runs of setup, write and read against a pretended kernel that
//! knows one interface, `lo`, and hands every frame sent on it back.

use rawsock::{
    Direction, IoAction, IoEvent, Progress, RawSock, Reply, SockError, SockOpts, Syscall,
    Transfer,
};
use std::collections::VecDeque;

const ENODEV: i32 = 19;
const EPERM: i32 = 1;
const ENETDOWN: i32 = 100;

/// The kernel's side, with a count of every call it was asked to make.
struct FakeOs {
    next_fd: i32,
    open: Vec<i32>,
    bound: Vec<(i32, i32)>,
    frames: VecDeque<Vec<u8>>,
    refuse_socket: Option<i32>,
    refuse_bind: Option<i32>,
    stale_wakeups: usize,
    accept_at_most: usize,
    fail_io: Option<i32>,
    setup_calls: usize,
    closes: usize,
    recvs: usize,
    sends: usize,
    waits: usize,
}

impl FakeOs {
    fn new() -> FakeOs {
        FakeOs {
            next_fd: 3,
            open: Vec::new(),
            bound: Vec::new(),
            frames: VecDeque::new(),
            refuse_socket: None,
            refuse_bind: None,
            stale_wakeups: 0,
            accept_at_most: usize::MAX,
            fail_io: None,
            setup_calls: 0,
            closes: 0,
            recvs: 0,
            sends: 0,
            waits: 0,
        }
    }

    fn index_of(name: &[u8]) -> Option<i32> {
        let end = name.iter().position(|b| *b == 0)?;
        if &name[..end] == b"lo" {
            Some(1)
        } else {
            None
        }
    }

    fn call(&mut self, call: &Syscall) -> Reply {
        self.setup_calls += 1;
        match *call {
            Syscall::Socket { domain, kind, .. } => {
                assert_eq!(domain, libc::AF_PACKET);
                assert_eq!(kind, libc::SOCK_RAW | libc::SOCK_NONBLOCK);
                if let Some(errno) = self.refuse_socket {
                    return Reply { ret: -1, errno, ifindex: 0 };
                }
                let fd = self.next_fd;
                self.next_fd += 1;
                self.open.push(fd);
                Reply { ret: fd, errno: 0, ifindex: 0 }
            }
            Syscall::IfIndex { fd, request, name } => {
                assert!(self.open.contains(&fd));
                assert_eq!(request, libc::SIOCGIFINDEX as u64);
                match FakeOs::index_of(&name) {
                    Some(ifindex) => Reply { ret: 0, errno: 0, ifindex },
                    None => Reply { ret: -1, errno: ENODEV, ifindex: 0 },
                }
            }
            Syscall::Bind { fd, addr } => {
                assert!(self.open.contains(&fd));
                assert_eq!(addr.family, libc::AF_PACKET as u16);
                if let Some(errno) = self.refuse_bind {
                    return Reply { ret: -1, errno, ifindex: 0 };
                }
                self.bound.push((fd, addr.ifindex));
                Reply { ret: 0, errno: 0, ifindex: 0 }
            }
        }
    }

    fn close(&mut self, fd: i32) {
        self.closes += 1;
        self.open.retain(|open| *open != fd);
    }

    fn attempt(&mut self, dir: Direction, fd: i32, buf: &mut [u8], len: usize) -> IoEvent {
        assert!(self.bound.iter().any(|(bound, _)| *bound == fd));
        assert_eq!(len, buf.len());
        match dir {
            Direction::Read => self.recvs += 1,
            Direction::Write => self.sends += 1,
        }
        if self.stale_wakeups > 0 {
            self.stale_wakeups -= 1;
            return IoEvent::Completed { ret: -1, errno: libc::EAGAIN };
        }
        if let Some(errno) = self.fail_io {
            return IoEvent::Completed { ret: -1, errno };
        }
        match dir {
            Direction::Write => {
                let n = len.min(self.accept_at_most);
                self.frames.push_back(buf[..n].to_vec());
                IoEvent::Completed { ret: n as isize, errno: 0 }
            }
            Direction::Read => match self.frames.pop_front() {
                Some(frame) => {
                    let n = frame.len().min(len);
                    buf[..n].copy_from_slice(&frame[..n]);
                    IoEvent::Completed { ret: n as isize, errno: 0 }
                }
                None => IoEvent::Completed { ret: -1, errno: libc::EWOULDBLOCK },
            },
        }
    }
}

/// Does what a driver does for setup.
fn create(opts: SockOpts, os: &mut FakeOs) -> Result<RawSock, SockError> {
    let mut binder = RawSock::new(opts)?;
    loop {
        let reply = os.call(&binder.request());
        match binder.step(reply) {
            Progress::Call(next) => binder = next,
            Progress::Bound(sock) => return Ok(sock),
            Progress::Failed { error, release } => {
                if let Some(fd) = release {
                    os.close(fd);
                }
                return Err(error);
            }
        }
    }
}

/// Does what a driver does for one read or write.
fn drive(mut op: Transfer, buf: &mut [u8], os: &mut FakeOs) -> Result<usize, SockError> {
    let mut action = op.action();
    loop {
        action = match action {
            IoAction::Await(_) => {
                os.waits += 1;
                op.step(IoEvent::Ready)
            }
            IoAction::Attempt { dir, fd, len, flags } => {
                assert_eq!(flags, 0);
                let event = os.attempt(dir, fd, buf, len);
                op.step(event)
            }
            IoAction::Return(result) => return result,
        };
    }
}

fn write(sock: &RawSock, frame: &[u8], os: &mut FakeOs) -> Result<usize, SockError> {
    let mut copy = frame.to_vec();
    drive(sock.write(frame), &mut copy, os)
}

fn read(sock: &RawSock, buf: &mut [u8], os: &mut FakeOs) -> Result<usize, SockError> {
    let op = sock.read(buf);
    drive(op, buf, os)
}

fn icmp_frame() -> Vec<u8> {
    vec![
        0x00, 0x00, 0x00, 0x00, 0x00, 0x00, 0x00, 0x00, 0x00, 0x00, 0x00, 0x00, 0x86, 0xdd, 0x60,
        0x04, 0x90, 0x15, 0x00, 0x40, 0x3a, 0x40, 0x00, 0x00, 0x00, 0x00, 0x00, 0x00, 0x00, 0x00,
        0x00, 0x00, 0x00, 0x00, 0x00, 0x00, 0x00, 0x01, 0x00, 0x00, 0x00, 0x00, 0x00, 0x00, 0x00,
        0x00, 0x00, 0x00, 0x00, 0x00, 0x00, 0x00, 0x00, 0x01, 0x80, 0x00, 0xd0, 0x40, 0x00, 0x0a,
        0x00, 0x01, 0xb9, 0xb1, 0x09, 0x68, 0x00, 0x00, 0x00, 0x00, 0x27, 0x4b, 0x06, 0x00, 0x00,
        0x00, 0x00, 0x00, 0x10, 0x11, 0x12, 0x13, 0x14, 0x15, 0x16, 0x17, 0x18, 0x19, 0x1a, 0x1b,
        0x1c, 0x1d, 0x1e, 0x1f, 0x20, 0x21, 0x22, 0x23, 0x24, 0x25, 0x26, 0x27, 0x28, 0x29, 0x2a,
        0x2b, 0x2c, 0x2d, 0x2e, 0x2f, 0x30, 0x31, 0x32, 0x33, 0x34, 0x35, 0x36, 0x37,
    ]
}

#[test]
fn test_creation() {
    let mut os = FakeOs::new();
    let my_sock =
        create(SockOpts { protocol: libc::ETH_P_ALL, intf: "lo" }, &mut os).unwrap();

    let mut my_buf = [0u8; 128];

    // ICMP localhost -> localhost
    let packet = icmp_frame();
    let packet: &[u8] = &packet;

    write(&my_sock, packet, &mut os).unwrap();
    let read_size = read(&my_sock, &mut my_buf, &mut os).unwrap();

    assert_eq!(read_size, packet.len());
    assert_eq!(&my_buf[..read_size], packet);
}

#[test]
fn creation_makes_three_calls_and_binds_the_opened_socket() {
    let mut os = FakeOs::new();
    let sock = create(SockOpts { protocol: libc::ETH_P_ALL, intf: "lo" }, &mut os).unwrap();
    assert_eq!(sock.fd(), 3);
    assert_eq!(os.setup_calls, 3);
    assert_eq!(os.bound, vec![(3, 1)]);
    assert_eq!(os.closes, 0);
}

#[test]
fn long_name_fails_without_any_call() {
    let mut os = FakeOs::new();
    let result = create(SockOpts { protocol: libc::ETH_P_ALL, intf: "0123456789abcdef" }, &mut os);
    assert_eq!(result.err(), Some(SockError::NameTooLong));
    assert_eq!(os.setup_calls, 0);
    assert_eq!(os.closes, 0);
}

#[test]
fn refused_socket_fails_with_nothing_to_close() {
    let mut os = FakeOs::new();
    os.refuse_socket = Some(EPERM);
    let result = create(SockOpts { protocol: libc::ETH_P_ALL, intf: "lo" }, &mut os);
    assert_eq!(result.err(), Some(SockError::Os { code: EPERM }));
    assert_eq!(os.setup_calls, 1);
    assert_eq!(os.closes, 0);
}

#[test]
fn unknown_interface_fails_and_closes_the_socket() {
    let mut os = FakeOs::new();
    let result = create(SockOpts { protocol: libc::ETH_P_ALL, intf: "nosuch0" }, &mut os);
    assert_eq!(result.err(), Some(SockError::Os { code: ENODEV }));
    assert_eq!(os.setup_calls, 2);
    assert_eq!(os.closes, 1);
    assert!(os.open.is_empty());
}

#[test]
fn refused_bind_fails_and_closes_the_socket() {
    let mut os = FakeOs::new();
    os.refuse_bind = Some(ENETDOWN);
    let result = create(SockOpts { protocol: libc::ETH_P_ALL, intf: "lo" }, &mut os);
    assert_eq!(result.err(), Some(SockError::Os { code: ENETDOWN }));
    assert_eq!(os.setup_calls, 3);
    assert_eq!(os.closes, 1);
    assert!(os.open.is_empty());
    assert!(os.bound.is_empty());
}

#[test]
fn stale_wakeups_end_in_the_right_count() {
    for stale in [0usize, 1, 2, 7] {
        let mut os = FakeOs::new();
        let sock = create(SockOpts { protocol: libc::ETH_P_ALL, intf: "lo" }, &mut os).unwrap();
        let frame = icmp_frame();
        os.stale_wakeups = stale;
        assert_eq!(frame.len(), 118);
        assert_eq!(write(&sock, &frame, &mut os), Ok(118));
        assert_eq!(os.sends, stale + 1);
        assert_eq!(os.waits, stale + 1);

        let mut buf = [0u8; 256];
        os.waits = 0;
        os.stale_wakeups = stale;
        assert_eq!(read(&sock, &mut buf, &mut os), Ok(118));
        assert_eq!(os.recvs, stale + 1);
        assert_eq!(os.waits, stale + 1);
        assert_eq!(&buf[..118], &frame[..]);
    }
}

#[test]
fn short_write_returns_the_smaller_count() {
    let mut os = FakeOs::new();
    let sock = create(SockOpts { protocol: libc::ETH_P_ALL, intf: "lo" }, &mut os).unwrap();
    os.accept_at_most = 60;
    assert_eq!(write(&sock, &icmp_frame(), &mut os), Ok(60));
    assert_eq!(os.sends, 1);
}

#[test]
fn short_buffer_reads_what_fits() {
    let mut os = FakeOs::new();
    let sock = create(SockOpts { protocol: libc::ETH_P_ALL, intf: "lo" }, &mut os).unwrap();
    write(&sock, &icmp_frame(), &mut os).unwrap();
    let mut buf = [0u8; 14];
    assert_eq!(read(&sock, &mut buf, &mut os), Ok(14));
    assert_eq!(&buf[..], &icmp_frame()[..14]);
}

#[test]
fn zero_length_frame_reads_as_zero() {
    let mut os = FakeOs::new();
    let sock = create(SockOpts { protocol: libc::ETH_P_ALL, intf: "lo" }, &mut os).unwrap();
    assert_eq!(write(&sock, &[], &mut os), Ok(0));
    let mut buf = [0u8; 32];
    assert_eq!(read(&sock, &mut buf, &mut os), Ok(0));
}

#[test]
fn io_error_is_returned_as_it_came_and_not_retried() {
    let mut os = FakeOs::new();
    let sock = create(SockOpts { protocol: libc::ETH_P_ALL, intf: "lo" }, &mut os).unwrap();
    os.fail_io = Some(ENETDOWN);
    assert_eq!(write(&sock, &icmp_frame(), &mut os), Err(SockError::Os { code: ENETDOWN }));
    assert_eq!(os.sends, 1);
    let mut buf = [0u8; 128];
    assert_eq!(read(&sock, &mut buf, &mut os), Err(SockError::Os { code: ENETDOWN }));
    assert_eq!(os.recvs, 1);
}

#[test]
fn io_error_after_stale_wakeups_is_still_returned() {
    let mut os = FakeOs::new();
    let sock = create(SockOpts { protocol: libc::ETH_P_ALL, intf: "lo" }, &mut os).unwrap();
    os.stale_wakeups = 3;
    os.fail_io = Some(EPERM);
    let mut buf = [0u8; 128];
    assert_eq!(read(&sock, &mut buf, &mut os), Err(SockError::Os { code: EPERM }));
    assert_eq!(os.recvs, 4);
}

#[test]
fn read_abandoned_while_waiting_leaves_the_socket_usable() {
    let mut os = FakeOs::new();
    let sock = create(SockOpts { protocol: libc::ETH_P_ALL, intf: "lo" }, &mut os).unwrap();
    let mut buf = [0u8; 128];

    // A read that meets a stale wakeup and is dropped while it waits again.
    let mut abandoned = sock.read(&mut buf);
    assert_eq!(abandoned.action(), IoAction::Await(Direction::Read));
    abandoned.step(IoEvent::Ready);
    let event = os.attempt(Direction::Read, sock.fd(), &mut buf, 128);
    assert_eq!(event, IoEvent::Completed { ret: -1, errno: libc::EWOULDBLOCK });
    assert_eq!(abandoned.step(event), IoAction::Await(Direction::Read));
    drop(abandoned);
    assert_eq!(buf, [0u8; 128]);

    // The next operations go as if it had never been.
    let frame = icmp_frame();
    assert_eq!(write(&sock, &frame, &mut os), Ok(118));
    assert_eq!(read(&sock, &mut buf, &mut os), Ok(118));
    assert_eq!(&buf[..118], &frame[..]);
    assert_eq!(&buf[118..], &[0u8; 10]);
}

#[test]
fn one_read_and_one_write_side_by_side() {
    let mut os = FakeOs::new();
    let sock = create(SockOpts { protocol: libc::ETH_P_ALL, intf: "lo" }, &mut os).unwrap();
    let frame = icmp_frame();
    let mut out = frame.clone();
    let mut buf = [0u8; 128];

    let mut reading = sock.read(&mut buf);
    let mut writing = sock.write(&frame);
    reading.step(IoEvent::Ready);
    writing.step(IoEvent::Ready);
    let sent = os.attempt(Direction::Write, sock.fd(), &mut out, 118);
    assert_eq!(writing.step(sent), IoAction::Return(Ok(118)));
    let received = os.attempt(Direction::Read, sock.fd(), &mut buf, 128);
    assert_eq!(reading.step(received), IoAction::Return(Ok(118)));
    assert_eq!(&buf[..118], &frame[..]);
}
