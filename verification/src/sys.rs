//! The numbers by which the host's C library names what the socket calls
//! are made with.
//!
//! The values are read from `libc` when the code runs. What the proofs
//! take for granted about them is written on each function below, and
//! nowhere else. Each claim holds on every target for which libc has all
//! of these items: Linux, Android and L4Re.

use vstd::prelude::*;

verus! {

/// Size in bytes of the kernel's interface-name field.
pub const NAME_CAPACITY: usize = 16;

/// Address family of packet sockets.
pub open spec fn packet_family() -> i32 {
    17
}

/// Socket type that hands whole frames to the caller.
pub open spec fn raw_type() -> i32 {
    3
}

/// Whether `flag` is the bit that opens a socket in non-blocking mode.
/// Which bit it is differs between architectures.
pub open spec fn is_nonblock_flag(flag: i32) -> bool {
    flag == 0x800 || flag == 0x80 || flag == 0x4000
}

/// Whether `kind` is the raw socket type joined with the non-blocking bit.
pub open spec fn is_raw_nonblocking(kind: i32) -> bool {
    kind == raw_type() | 0x800 || kind == raw_type() | 0x80 || kind == raw_type() | 0x4000
}

/// Request number of the name-to-index query.
pub open spec fn index_query() -> u64 {
    0x8933
}

/// Error number of a non-blocking call that found nothing to do.
pub open spec fn again() -> i32 {
    11
}

/// Whether `errno` says that a non-blocking call found nothing to do.
pub open spec fn would_block(errno: i32) -> bool {
    errno == again()
}

/// `libc::IFNAMSIZ`, the size of the name field in an interface request.
/// Taken to be 16.
#[verifier::external_body]
pub(crate) fn ifnamsiz() -> (n: usize)
    ensures
        n == NAME_CAPACITY,
{
    libc::IFNAMSIZ
}

/// `libc::AF_PACKET`, the family of packet sockets. Taken to be 17.
#[verifier::external_body]
pub(crate) fn af_packet() -> (v: i32)
    ensures
        v == packet_family(),
{
    libc::AF_PACKET
}

/// `libc::SOCK_RAW`, the raw socket type. Taken to be 3.
#[verifier::external_body]
pub(crate) fn sock_raw() -> (v: i32)
    ensures
        v == raw_type(),
{
    libc::SOCK_RAW
}

/// `libc::SOCK_NONBLOCK`, the flag that opens a socket non-blocking.
/// Taken to be one of the three values that libc has for it: 0o4000 on
/// most architectures, 0o200 on MIPS, 0x4000 on SPARC.
#[verifier::external_body]
pub(crate) fn sock_nonblock() -> (v: i32)
    ensures
        is_nonblock_flag(v),
{
    libc::SOCK_NONBLOCK
}

/// `libc::SIOCGIFINDEX`, the request that finds an interface's index by
/// its name, widened to 64 bits. Taken to be 0x8933.
#[verifier::external_body]
pub(crate) fn siocgifindex() -> (v: u64)
    ensures
        v == index_query(),
{
    libc::SIOCGIFINDEX as u64
}

/// `libc::EAGAIN`, the error of a non-blocking call that found nothing
/// to do. Taken to be 11.
#[verifier::external_body]
pub(crate) fn eagain() -> (v: i32)
    ensures
        v == again(),
{
    libc::EAGAIN
}

/// `libc::EWOULDBLOCK`, the other name of that error. Taken to be 11:
/// libc declares it as `EAGAIN`.
#[verifier::external_body]
pub(crate) fn ewouldblock() -> (v: i32)
    ensures
        v == again(),
{
    libc::EWOULDBLOCK
}

} // verus!
