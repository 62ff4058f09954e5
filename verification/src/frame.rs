use vstd::prelude::*;

verus! {

/// Largest raw value of an 11-bit standard CAN identifier.
pub const STANDARD_ID_MAX: u16 = 0x7FF;

/// Largest raw value of a 29-bit extended CAN identifier.
pub const EXTENDED_ID_MAX: u32 = 0x1FFF_FFFF;

/// A CAN identifier, held as its raw value.
#[derive(Clone, Copy, Debug, PartialEq, Eq, Structural)]
pub enum CanId {
    /// Standard 11-bit identifier.
    Standard(u16),
    /// Extended 29-bit identifier.
    Extended(u32),
}

/// `embedded_can::StandardId::new`: `Some` exactly when `raw` fits in 11 bits,
/// and then the identifier holds `raw` (read back with `as_raw`).
#[verifier::external_body]
fn embedded_standard_id(raw: u16) -> (r: Option<u16>)
    ensures
        r == (if raw <= STANDARD_ID_MAX { Some(raw) } else { None::<u16> }),
{
    match embedded_can::StandardId::new(raw) {
        Some(id) => Some(id.as_raw()),
        None => None,
    }
}

/// `embedded_can::ExtendedId::new`: `Some` exactly when `raw` fits in 29 bits,
/// and then the identifier holds `raw` (read back with `as_raw`).
#[verifier::external_body]
fn embedded_extended_id(raw: u32) -> (r: Option<u32>)
    ensures
        r == (if raw <= EXTENDED_ID_MAX { Some(raw) } else { None::<u32> }),
{
    match embedded_can::ExtendedId::new(raw) {
        Some(id) => Some(id.as_raw()),
        None => None,
    }
}

impl CanId {
    /// Whether the raw value fits the identifier's width.
    pub open spec fn is_valid(self) -> bool {
        match self {
            CanId::Standard(raw) => raw <= STANDARD_ID_MAX,
            CanId::Extended(raw) => raw <= EXTENDED_ID_MAX,
        }
    }

    /// A standard identifier, or `None` when `raw` does not fit in 11 bits.
    pub fn standard(raw: u16) -> (r: Option<CanId>)
        ensures
            r == (if raw <= STANDARD_ID_MAX { Some(CanId::Standard(raw)) } else { None::<CanId> }),
    {
        match embedded_standard_id(raw) {
            Some(v) => Some(CanId::Standard(v)),
            None => None,
        }
    }

    /// An extended identifier, or `None` when `raw` does not fit in 29 bits.
    pub fn extended(raw: u32) -> (r: Option<CanId>)
        ensures
            r == (if raw <= EXTENDED_ID_MAX { Some(CanId::Extended(raw)) } else { None::<CanId> }),
    {
        match embedded_extended_id(raw) {
            Some(v) => Some(CanId::Extended(v)),
            None => None,
        }
    }
}

/// A received or outgoing classic CAN data frame: identifier and payload.
#[derive(Clone, Debug)]
pub struct CanFrame {
    pub id: CanId,
    pub data: Vec<u8>,
}

/// Most payload bytes a classic CAN data frame carries.
pub const MAX_FRAME_DATA_LEN: usize = 8;

impl CanFrame {
    /// A data frame with identifier `id` and payload `data`, or `None` when
    /// the payload is longer than a classic CAN frame allows.
    pub fn new_data(id: CanId, data: &[u8]) -> (r: Option<CanFrame>)
        ensures
            data@.len() <= MAX_FRAME_DATA_LEN <==> r is Some,
            r matches Some(f) ==> f.id == id && f.data@ == data@,
    {
        if data.len() <= MAX_FRAME_DATA_LEN {
            Some(CanFrame { id, data: vstd::slice::slice_to_vec(data) })
        } else {
            None
        }
    }
}

} // verus!
