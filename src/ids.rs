//! Object identities: fresh ones, and their 16-byte wire form.

use crate::object::ObjectId;
use vstd::prelude::*;

verus! {

/// The number whose big-endian bytes are `bytes`.
pub open spec fn be_value(bytes: Seq<u8>) -> nat
    decreases bytes.len(),
{
    if bytes.len() == 0 {
        0
    } else {
        be_value(bytes.drop_last()) * 256 + bytes.last() as nat
    }
}

/// Relies on `uuid::Uuid::from_slice`, which accepts exactly 16 bytes and
/// keeps them in order, and on `Uuid::as_u128`, which reads them big-endian.
#[verifier::external_body]
fn uuid_from_slice(bytes: &[u8]) -> (r: Option<u128>)
    ensures
        r is Some <==> bytes@.len() == 16,
        r matches Some(v) ==> v as nat == be_value(bytes@),
{
    uuid::Uuid::from_slice(bytes).ok().map(|u| u.as_u128())
}

/// Relies on `uuid::Uuid::from_u128` and `Uuid::as_bytes`: the 16 bytes of the
/// value, most significant first.
#[verifier::external_body]
fn uuid_bytes(value: u128) -> (r: Vec<u8>)
    ensures
        r@.len() == 16,
        be_value(r@) == value as nat,
{
    uuid::Uuid::from_u128(value).as_bytes().to_vec()
}

/// The identity given by the caller as bytes, if there are exactly 16 of them.
pub fn object_id_from_bytes(bytes: &Vec<u8>) -> (r: Option<ObjectId>)
    ensures
        r is Some <==> bytes@.len() == 16,
        r matches Some(id) ==> id.uuid as nat == be_value(bytes@),
{
    match uuid_from_slice(bytes.as_slice()) {
        Some(v) => Some(ObjectId { uuid: v }),
        None => None,
    }
}

/// The 16 bytes of an identity, most significant first.
pub fn object_id_bytes(id: ObjectId) -> (r: Vec<u8>)
    ensures
        r@.len() == 16,
        be_value(r@) == id.uuid as nat,
{
    uuid_bytes(id.uuid)
}

/// Hands out fresh, time-ordered identities (UUID version 7). Each identity
/// that one generator hands out is greater than those it handed out before.
pub struct IdGenerator {
    latest: Ghost<u128>,
}

impl IdGenerator {
    /// The last identity handed out, or zero.
    pub closed spec fn latest(&self) -> nat {
        self.latest@ as nat
    }

    pub fn new() -> (r: IdGenerator)
        ensures
            r.latest() == 0,
    {
        IdGenerator { latest: Ghost(0u128) }
    }

    /// Relies on `uuid::Uuid::now_v7` and `Uuid::as_u128`: a version 7 UUID
    /// (version nibble 7), and every one that `now_v7` returns in a process is
    /// greater than each one it returned before. `latest` is zero or the last
    /// value drawn here, so the new value is greater than it.
    #[verifier::external_body]
    fn draw(&mut self) -> (r: u128)
        ensures
            r > old(self).latest(),
            final(self).latest() == r,
            (r >> 76u128) & 0xfu128 == 7u128,
    {
        uuid::Uuid::now_v7().as_u128()
    }

    /// A fresh identity, greater than every earlier one.
    pub fn next_id(&mut self) -> (r: ObjectId)
        ensures
            r.uuid > old(self).latest(),
            final(self).latest() == r.uuid,
    {
        ObjectId { uuid: self.draw() }
    }
}

} // verus!
