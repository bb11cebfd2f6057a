//! CAN identifiers and frames as plain values.
use embedded_can::Frame;
use vstd::prelude::*;

verus! {

/// The largest 29-bit identifier.
pub const MAX_EXTENDED_ID: u32 = 0x1FFF_FFFF;

/// The number of data bytes that a classic CAN frame holds.
pub const MAX_FRAME_DATA: usize = 8;

/// A CAN identifier, with its raw value.
#[derive(Clone, Copy, Debug, PartialEq, Eq, Structural)]
pub enum Id {
    /// 11-bit identifier.
    Standard(u16),
    /// 29-bit identifier.
    Extended(u32),
}

/// A CAN frame.
#[derive(Debug)]
pub struct CanFrame {
    pub id: Id,
    pub remote: bool,
    pub data: Vec<u8>,
}

/// `embedded_can::ExtendedId::new`: accepts what fits 29 bits.
#[verifier::external_body]
fn embedded_can_extended_id(raw: u32) -> (id: Option<u32>)
    ensures
        id == if raw <= 0x1FFF_FFFF { Some(raw) } else { None::<u32> },
{
    embedded_can::ExtendedId::new(raw).map(|id| id.as_raw())
}

/// `mcp25xx::CanFrame::new` with an extended identifier: a data frame with that identifier and
/// data, where the data is at most eight bytes.
#[verifier::external_body]
fn mcp25xx_frame(id: u32, data: &[u8]) -> (frame: Option<CanFrame>)
    requires
        id <= 0x1FFF_FFFF,
    ensures
        frame is Some <==> data@.len() <= 8,
        frame matches Some(f) ==> f.id == Id::Extended(id) && !f.remote && f.data@ == data@,
{
    let id = embedded_can::ExtendedId::new(id)?;
    mcp25xx::CanFrame::new(id, data).map(|f| CanFrame {
        id: match f.id() {
            embedded_can::Id::Standard(id) => Id::Standard(id.as_raw()),
            embedded_can::Id::Extended(id) => Id::Extended(id.as_raw()),
        },
        remote: f.is_remote_frame(),
        data: f.data().to_vec(),
    })
}

impl Id {
    /// The extended identifier `raw`, if it is one.
    pub fn extended(raw: u32) -> (id: Option<Id>)
        ensures
            id == if raw <= MAX_EXTENDED_ID { Some(Id::Extended(raw)) } else { None::<Id> },
            id is Some <==> raw < 0x2000_0000,
    {
        match embedded_can_extended_id(raw) {
            Some(raw) => Some(Id::Extended(raw)),
            None => None,
        }
    }
}

impl CanFrame {
    /// A data frame with an extended identifier, if `id` is one and the data fits.
    pub fn extended(id: u32, data: &[u8]) -> (frame: Option<CanFrame>)
        ensures
            frame is Some <==> id <= MAX_EXTENDED_ID && data@.len() <= MAX_FRAME_DATA,
            frame is Some <==> id < 0x2000_0000 && data@.len() <= 8,
            frame matches Some(f) ==> f.id == Id::Extended(id) && !f.remote && f.data@ == data@,
    {
        match embedded_can_extended_id(id) {
            Some(id) => mcp25xx_frame(id, data),
            None => None,
        }
    }
}

} // verus!
