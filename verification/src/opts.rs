//! What a socket is made from.

use crate::error::SockError;
use crate::sys::NAME_CAPACITY;
use vstd::prelude::*;
use vstd::string::StringSliceAdditionalSpecFns;

verus! {

/// The protocol and the interface that a socket is bound to.
pub struct SockOpts<'opt> {
    /// The Ethernet protocol type to bind to. `ETH_P_ALL` lets frames of
    /// every type through.
    pub protocol: i32,
    /// The name of the interface to bind to.
    pub intf: &'opt str,
}

impl<'opt> SockOpts<'opt> {
    /// The interface name as the bytes that the kernel is given.
    pub open spec fn name(&self) -> Seq<u8> {
        self.intf.spec_bytes()
    }

    /// Whether the name leaves room for a terminator in the kernel's field.
    pub open spec fn fits(&self) -> bool {
        self.name().len() < NAME_CAPACITY
    }
}

/// `name` followed by zeros, as long as the kernel's name field.
pub open spec fn padded(name: Seq<u8>) -> Seq<u8> {
    Seq::new(NAME_CAPACITY as nat, |i: int| if i < name.len() { name[i] } else { 0u8 })
}

/// Lays `name` out in a zeroed field of the kernel's size. A name that
/// would fill the field, leaving no terminator, is refused.
pub fn name_buffer(name: &str) -> (r: Result<[u8; NAME_CAPACITY], SockError>)
    ensures
        match r {
            Ok(buf) => name.spec_bytes().len() < NAME_CAPACITY && buf@ == padded(name.spec_bytes()),
            Err(e) => name.spec_bytes().len() >= NAME_CAPACITY && e == SockError::NameTooLong,
        },
{
    let bytes = name.as_bytes();
    if bytes.len() >= crate::sys::ifnamsiz() {
        return Err(SockError::NameTooLong);
    }
    let mut buf = [0u8; NAME_CAPACITY];
    let mut i: usize = 0;
    while i < bytes.len()
        invariant
            i <= bytes.len() < NAME_CAPACITY,
            forall|j: int| 0 <= j < i ==> buf@[j] == bytes@[j],
            forall|j: int| i <= j < NAME_CAPACITY ==> buf@[j] == 0u8,
        decreases bytes.len() - i,
    {
        buf[i] = bytes[i];
        i += 1;
    }
    assert(buf@ =~= padded(bytes@));
    Ok(buf)
}

} // verus!
