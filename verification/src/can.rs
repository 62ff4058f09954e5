//! The messages of the CAN flashing protocol, as sent over a classic CAN bus
//! (bxCAN peripherals), and their encoding into frames.
use crate::frame::{CanFrame, CanId};
use crate::wire::{
    bytes_of_u32, bytes_of_u64, lemma_native_u32_bytes_roundtrip, lemma_native_u32_roundtrip,
    lemma_native_u64_bytes_roundtrip, lemma_native_u64_roundtrip, native_u32, native_u32_bytes,
    native_u64, native_u64_bytes, pod_read_u32, pod_read_u64,
};
use vstd::bytes::{spec_u32_to_le_bytes, spec_u64_to_le_bytes};
use vstd::endian::{endianness, Endian};
use vstd::prelude::*;

verus! {

/// Identifier of [`BeginCanFlashingMessage`] frames (standard identifier).
pub const BEGIN_CAN_FLASHING_ID: u16 = 0x303;

/// Identifier of [`AckMessage`] frames (standard identifier).
pub const ACK_ID: u16 = 0x304;

/// Identifier of [`FlashDataMessage`] frames (standard identifier).
pub const FLASH_DATA_ID: u16 = 0x305;

/// Identifier of `BeginFlashInfoMessage` frames (standard identifier).
pub const BEGIN_FLASH_INFO_ID: u16 = 0x306;

/// Identifier of [`FlashFinishMessage`] frames (standard identifier).
pub const FLASH_FINISH_ID: u16 = 0x307;

/// Identifier of [`RevertSectorMessage`] frames (standard identifier).
pub const REVERT_SECTOR_ID: u16 = 0x308;

/// Number of application bytes carried by one [`FlashDataMessage`].
pub const FLASH_DATA_CHUNK_LEN: usize = 7;

/// Payload length of a [`BeginCanFlashingMessage`] frame.
pub const BEGIN_CAN_FLASHING_LEN: usize = 8;

/// Payload length of a [`FlashDataMessage`] frame.
pub const FLASH_DATA_LEN: usize = 8;

/// Payload length of a [`BeginFlashInfoMessage`] frame.
pub const BEGIN_FLASH_INFO_LEN: usize = 4;

/// Host request to enter flashing mode, addressed to one board.
#[derive(Clone, Copy, Debug, PartialEq, Eq, Structural)]
pub struct BeginCanFlashingMessage {
    pub board_id: u64,
}

impl BeginCanFlashingMessage {
    /// Frame payload: the board identifier's in-memory bytes.
    pub open spec fn payload(self) -> Seq<u8> {
        native_u64_bytes(self.board_id)
    }

    /// The message carried by a frame with identifier `id` and payload `data`.
    pub open spec fn parse(id: CanId, data: Seq<u8>) -> Option<Self> {
        if id == CanId::Standard(BEGIN_CAN_FLASHING_ID) {
            Some(Self { board_id: native_u64(data) })
        } else {
            None
        }
    }

    /// Whether decoding `frame` succeeds without a payload-size failure: a
    /// frame with this message's identifier must carry exactly 8 bytes.
    pub open spec fn decodable(id: CanId, data: Seq<u8>) -> bool {
        id == CanId::Standard(BEGIN_CAN_FLASHING_ID) ==> data.len()
            == BEGIN_CAN_FLASHING_LEN
    }

    /// The message in `frame`, or `None` when the frame has another identifier.
    pub fn try_from_frame(frame: &CanFrame) -> (r: Option<Self>)
        requires
            Self::decodable(frame.id, frame.data@),
        ensures
            r == Self::parse(frame.id, frame.data@),
    {
        if frame.id == CanId::Standard(BEGIN_CAN_FLASHING_ID) {
            Some(Self { board_id: pod_read_u64(frame.data.as_slice()) })
        } else {
            None
        }
    }

    /// The frame that carries this message.
    pub fn to_frame(self) -> (f: CanFrame)
        ensures
            f.id == CanId::Standard(BEGIN_CAN_FLASHING_ID),
            f.data@ == self.payload(),
    {
        proof {
            lemma_native_u64_roundtrip(self.board_id);
        }
        CanFrame::new_data(CanId::Standard(BEGIN_CAN_FLASHING_ID), bytes_of_u64(&self.board_id)).unwrap()
    }
}

/// Acknowledgement, sent by the board after each protocol step.
#[derive(Clone, Copy, Debug, PartialEq, Eq, Structural)]
pub struct AckMessage;

impl AckMessage {
    /// The message carried by a frame with identifier `id`; the payload is
    /// not looked at.
    pub open spec fn parse(id: CanId, data: Seq<u8>) -> Option<Self> {
        if id == CanId::Standard(ACK_ID) {
            Some(AckMessage)
        } else {
            None
        }
    }

    /// The message in `frame`, or `None` when the frame has another identifier.
    pub fn try_from_frame(frame: &CanFrame) -> (r: Option<Self>)
        ensures
            r == Self::parse(frame.id, frame.data@),
            r is Some <==> frame.id == CanId::Standard(ACK_ID),
    {
        if frame.id == CanId::Standard(ACK_ID) {
            Some(AckMessage)
        } else {
            None
        }
    }

    /// The frame that carries this message: no payload.
    pub fn to_frame(self) -> (f: CanFrame)
        ensures
            f.id == CanId::Standard(ACK_ID),
            f.data@ == Seq::<u8>::empty(),
    {
        let empty: [u8; 0] = [];
        CanFrame::new_data(CanId::Standard(ACK_ID), &empty).unwrap()
    }
}

/// Seven application bytes, to be placed at byte `index` of the sector
/// being received.
#[derive(Clone, Copy, Debug, PartialEq, Eq)]
pub struct FlashDataMessage {
    pub index: u8,
    pub data: [u8; 7],
}

impl FlashDataMessage {
    /// Frame payload: the index byte followed by the seven data bytes.
    pub open spec fn payload(self) -> Seq<u8> {
        seq![self.index] + self.data@
    }

    /// The message carried by a frame with identifier `id` and payload `data`.
    pub open spec fn parse(id: CanId, data: Seq<u8>) -> Option<Self> {
        if id == CanId::Standard(FLASH_DATA_ID) {
            Some(Self { index: data[0], data: [data[1], data[2], data[3], data[4], data[5], data[6], data[7]] })
        } else {
            None
        }
    }

    /// Whether decoding `frame` succeeds without a payload-size failure: a
    /// frame with this message's identifier must carry exactly 8 bytes.
    pub open spec fn decodable(id: CanId, data: Seq<u8>) -> bool {
        id == CanId::Standard(FLASH_DATA_ID) ==> data.len() == FLASH_DATA_LEN
    }

    /// The message in `frame`, or `None` when the frame has another identifier.
    pub fn try_from_frame(frame: &CanFrame) -> (r: Option<Self>)
        requires
            Self::decodable(frame.id, frame.data@),
        ensures
            r == Self::parse(frame.id, frame.data@),
    {
        if frame.id == CanId::Standard(FLASH_DATA_ID) {
            let d = &frame.data;
            let data: [u8; 7] = [d[1], d[2], d[3], d[4], d[5], d[6], d[7]];
            Some(Self { index: d[0], data })
        } else {
            None
        }
    }

    /// The frame that carries this message.
    pub fn to_frame(self) -> (f: CanFrame)
        ensures
            f.id == CanId::Standard(FLASH_DATA_ID),
            f.data@ == self.payload(),
    {
        let bytes: [u8; 8] = [
            self.index,
            self.data[0],
            self.data[1],
            self.data[2],
            self.data[3],
            self.data[4],
            self.data[5],
            self.data[6],
        ];
        assert(bytes@ =~= self.payload());
        CanFrame::new_data(CanId::Standard(FLASH_DATA_ID), &bytes).unwrap()
    }
}

/// Size of the application about to be flashed.
#[derive(Clone, Copy, Debug, PartialEq, Eq, Structural)]
pub struct BeginFlashInfoMessage {
    pub app_len: u32,
}

impl BeginFlashInfoMessage {
    /// Frame payload: the application length's in-memory bytes.
    pub open spec fn payload(self) -> Seq<u8> {
        native_u32_bytes(self.app_len)
    }

    /// The message carried by a frame with identifier `id` and payload `data`.
    pub open spec fn parse(id: CanId, data: Seq<u8>) -> Option<Self> {
        if id == CanId::Standard(BEGIN_FLASH_INFO_ID) {
            Some(Self { app_len: native_u32(data) })
        } else {
            None
        }
    }

    /// Whether decoding `frame` succeeds without a payload-size failure: a
    /// frame with this message's identifier must carry exactly 4 bytes.
    pub open spec fn decodable(id: CanId, data: Seq<u8>) -> bool {
        id == CanId::Standard(BEGIN_FLASH_INFO_ID) ==> data.len()
            == BEGIN_FLASH_INFO_LEN
    }

    /// The message in `frame`, or `None` when the frame has another identifier.
    pub fn try_from_frame(frame: &CanFrame) -> (r: Option<Self>)
        requires
            Self::decodable(frame.id, frame.data@),
        ensures
            r == Self::parse(frame.id, frame.data@),
    {
        if frame.id == CanId::Standard(BEGIN_FLASH_INFO_ID) {
            Some(Self { app_len: pod_read_u32(frame.data.as_slice()) })
        } else {
            None
        }
    }

    /// The frame that carries this message.
    pub fn to_frame(self) -> (f: CanFrame)
        ensures
            f.id == CanId::Standard(BEGIN_FLASH_INFO_ID),
            f.data@ == self.payload(),
    {
        proof {
            lemma_native_u32_roundtrip(self.app_len);
        }
        CanFrame::new_data(CanId::Standard(BEGIN_FLASH_INFO_ID), bytes_of_u32(&self.app_len)).unwrap()
    }
}

/// The host has sent the whole application.
#[derive(Clone, Copy, Debug, PartialEq, Eq, Structural)]
pub struct FlashFinishMessage;

impl FlashFinishMessage {
    /// The message carried by a frame with identifier `id`; the payload is
    /// not looked at.
    pub open spec fn parse(id: CanId, data: Seq<u8>) -> Option<Self> {
        if id == CanId::Standard(FLASH_FINISH_ID) {
            Some(FlashFinishMessage)
        } else {
            None
        }
    }

    /// The message in `frame`, or `None` when the frame has another identifier.
    pub fn try_from_frame(frame: &CanFrame) -> (r: Option<Self>)
        ensures
            r == Self::parse(frame.id, frame.data@),
            r is Some <==> frame.id == CanId::Standard(FLASH_FINISH_ID),
    {
        if frame.id == CanId::Standard(FLASH_FINISH_ID) {
            Some(FlashFinishMessage)
        } else {
            None
        }
    }

    /// The frame that carries this message: no payload.
    pub fn to_frame(self) -> (f: CanFrame)
        ensures
            f.id == CanId::Standard(FLASH_FINISH_ID),
            f.data@ == Seq::<u8>::empty(),
    {
        let empty: [u8; 0] = [];
        CanFrame::new_data(CanId::Standard(FLASH_FINISH_ID), &empty).unwrap()
    }
}

/// The host asks to resend the sector being received from its start.
#[derive(Clone, Copy, Debug, PartialEq, Eq, Structural)]
pub struct RevertSectorMessage;

impl RevertSectorMessage {
    /// The message carried by a frame with identifier `id`; the payload is
    /// not looked at.
    pub open spec fn parse(id: CanId, data: Seq<u8>) -> Option<Self> {
        if id == CanId::Standard(REVERT_SECTOR_ID) {
            Some(RevertSectorMessage)
        } else {
            None
        }
    }

    /// The message in `frame`, or `None` when the frame has another identifier.
    pub fn try_from_frame(frame: &CanFrame) -> (r: Option<Self>)
        ensures
            r == Self::parse(frame.id, frame.data@),
            r is Some <==> frame.id == CanId::Standard(REVERT_SECTOR_ID),
    {
        if frame.id == CanId::Standard(REVERT_SECTOR_ID) {
            Some(RevertSectorMessage)
        } else {
            None
        }
    }

    /// The frame that carries this message: no payload.
    pub fn to_frame(self) -> (f: CanFrame)
        ensures
            f.id == CanId::Standard(REVERT_SECTOR_ID),
            f.data@ == Seq::<u8>::empty(),
    {
        let empty: [u8; 0] = [];
        CanFrame::new_data(CanId::Standard(REVERT_SECTOR_ID), &empty).unwrap()
    }
}

/// Receive FIFO of a bxCAN peripheral.
#[derive(Clone, Copy, Debug, PartialEq, Eq, Structural)]
pub enum Fifo {
    Fifo0,
    Fifo1,
}

/// An acceptance filter bank in list mode: data frames with either of its
/// two standard identifiers go to `fifo`.
#[derive(Clone, Copy, Debug, PartialEq, Eq, Structural)]
pub struct FilterBank {
    pub bank: u8,
    pub fifo: Fifo,
    pub first_id: u16,
    pub second_id: u16,
}

/// The filter banks that let the flashing protocol's six messages through,
/// two per bank.  The first CAN peripheral uses banks 0 to 2 and FIFO 0; the
/// second one, whose banks follow the first one's 14, uses banks 14 to 16
/// and FIFO 1.
pub fn protocol_filter_banks(second_peripheral: bool) -> (banks: [FilterBank; 3])
    ensures
        banks[0].first_id == BEGIN_CAN_FLASHING_ID && banks[0].second_id == ACK_ID,
        banks[1].first_id == FLASH_DATA_ID && banks[1].second_id == BEGIN_FLASH_INFO_ID,
        banks[2].first_id == FLASH_FINISH_ID && banks[2].second_id == REVERT_SECTOR_ID,
        forall|i: int|
            0 <= i < 3 ==> #[trigger] banks[i].bank == (if second_peripheral { 14 + i } else { i })
                && banks[i].fifo == (if second_peripheral { Fifo::Fifo1 } else { Fifo::Fifo0 }),
{
    let (first, fifo) = if second_peripheral {
        (14u8, Fifo::Fifo1)
    } else {
        (0u8, Fifo::Fifo0)
    };
    let banks = [
        FilterBank { bank: first, fifo, first_id: BEGIN_CAN_FLASHING_ID, second_id: ACK_ID },
        FilterBank { bank: first + 1, fifo, first_id: FLASH_DATA_ID, second_id: BEGIN_FLASH_INFO_ID },
        FilterBank { bank: first + 2, fifo, first_id: FLASH_FINISH_ID, second_id: REVERT_SECTOR_ID },
    ];
    banks
}

/// Decoding undoes encoding: the frame that `to_frame` builds for a message
/// carries a payload of the size `try_from_frame` accepts, and decodes to the
/// same message.
pub proof fn lemma_messages_roundtrip(
    begin: BeginCanFlashingMessage,
    data: FlashDataMessage,
    info: BeginFlashInfoMessage,
)
    ensures
        begin.payload().len() == BEGIN_CAN_FLASHING_LEN,
        BeginCanFlashingMessage::parse(CanId::Standard(BEGIN_CAN_FLASHING_ID), begin.payload())
            == Some(begin),
        data.payload().len() == FLASH_DATA_LEN,
        FlashDataMessage::parse(CanId::Standard(FLASH_DATA_ID), data.payload()) == Some(data),
        info.payload().len() == BEGIN_FLASH_INFO_LEN,
        BeginFlashInfoMessage::parse(CanId::Standard(BEGIN_FLASH_INFO_ID), info.payload())
            == Some(info),
        AckMessage::parse(CanId::Standard(ACK_ID), Seq::empty()) == Some(AckMessage),
        FlashFinishMessage::parse(CanId::Standard(FLASH_FINISH_ID), Seq::empty()) == Some(
            FlashFinishMessage,
        ),
        RevertSectorMessage::parse(CanId::Standard(REVERT_SECTOR_ID), Seq::empty()) == Some(
            RevertSectorMessage,
        ),
{
    lemma_native_u64_roundtrip(begin.board_id);
    lemma_native_u32_roundtrip(info.app_len);
    let p = data.payload();
    let d = FlashDataMessage::parse(CanId::Standard(FLASH_DATA_ID), p).unwrap();
    assert(d.data =~= data.data);
}

/// Encoding undoes decoding: a payload of the accepted size is rebuilt
/// byte for byte by encoding the message decoded from it.
pub proof fn lemma_payloads_roundtrip(id: CanId, data: Seq<u8>)
    ensures
        data.len() == BEGIN_CAN_FLASHING_LEN && id == CanId::Standard(BEGIN_CAN_FLASHING_ID)
            ==> BeginCanFlashingMessage::parse(id, data).unwrap().payload() == data,
        data.len() == FLASH_DATA_LEN && id == CanId::Standard(FLASH_DATA_ID)
            ==> FlashDataMessage::parse(id, data).unwrap().payload() == data,
        data.len() == BEGIN_FLASH_INFO_LEN && id == CanId::Standard(BEGIN_FLASH_INFO_ID)
            ==> BeginFlashInfoMessage::parse(id, data).unwrap().payload() == data,
{
    if data.len() == BEGIN_CAN_FLASHING_LEN {
        lemma_native_u64_bytes_roundtrip(data);
    }
    if data.len() == BEGIN_FLASH_INFO_LEN {
        lemma_native_u32_bytes_roundtrip(data);
    }
    if data.len() == FLASH_DATA_LEN && id == CanId::Standard(FLASH_DATA_ID) {
        assert(FlashDataMessage::parse(id, data).unwrap().payload() =~= data);
    }
}

/// On a little-endian machine the integer fields travel in little-endian
/// byte order: the request carries the board identifier's little-endian
/// bytes, the flash information the application length's.
pub proof fn lemma_little_endian_payloads(begin: BeginCanFlashingMessage, info: BeginFlashInfoMessage)
    requires
        endianness() == Endian::Little,
    ensures
        begin.payload() == spec_u64_to_le_bytes(begin.board_id),
        info.payload() == spec_u32_to_le_bytes(info.app_len),
{
}

/// A frame is recognised as at most one kind of message.
pub proof fn lemma_message_kinds_exclusive(id: CanId, data: Seq<u8>)
    ensures
        (if BeginCanFlashingMessage::parse(id, data) is Some { 1int } else { 0 })
            + (if AckMessage::parse(id, data) is Some { 1int } else { 0 })
            + (if FlashDataMessage::parse(id, data) is Some { 1int } else { 0 })
            + (if BeginFlashInfoMessage::parse(id, data) is Some { 1int } else { 0 })
            + (if FlashFinishMessage::parse(id, data) is Some { 1int } else { 0 })
            + (if RevertSectorMessage::parse(id, data) is Some { 1int } else { 0 }) <= 1,
{
}

} // verus!
