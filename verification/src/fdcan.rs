//! The messages of the flashing protocol as sent over an FDCAN peripheral.
//! All messages but the flash information are those of the classic CAN
//! protocol; the flash information also tells the sector size.
pub use crate::can::{
    AckMessage, BeginCanFlashingMessage, FlashDataMessage, FlashFinishMessage,
    RevertSectorMessage, BEGIN_FLASH_INFO_ID,
};
use crate::frame::{CanFrame, CanId};
use crate::wire::{
    bytes_of_u32, lemma_native_u32_bytes_roundtrip, lemma_native_u32_roundtrip, native_u32,
    native_u32_bytes, pod_read_u32,
};
use vstd::prelude::*;
use vstd::slice::slice_subrange;

verus! {

/// Payload length of an FDCAN [`BeginFlashInfoMessage`] frame: the
/// application length followed, without padding, by the sector size.
pub const FD_BEGIN_FLASH_INFO_LEN: usize = 5;

/// Size of the application about to be flashed, and the number of
/// [`FlashDataMessage`]s that make up one sector.
#[derive(Clone, Copy, Debug, PartialEq, Eq, Structural)]
pub struct BeginFlashInfoMessage {
    pub app_len: u32,
    pub sector_size: u8,
}

impl BeginFlashInfoMessage {
    /// Frame payload: the application length's in-memory bytes, then the
    /// sector size.
    pub open spec fn payload(self) -> Seq<u8> {
        native_u32_bytes(self.app_len) + seq![self.sector_size]
    }

    /// The message carried by a frame with identifier `id` and payload `data`.
    pub open spec fn parse(id: CanId, data: Seq<u8>) -> Option<Self> {
        if id == CanId::Standard(BEGIN_FLASH_INFO_ID) {
            Some(Self { app_len: native_u32(data.take(4)), sector_size: data[4] })
        } else {
            None
        }
    }

    /// Whether decoding `frame` succeeds without a payload-size failure: a
    /// frame with this message's identifier must carry exactly 5 bytes.
    pub open spec fn decodable(id: CanId, data: Seq<u8>) -> bool {
        id == CanId::Standard(BEGIN_FLASH_INFO_ID) ==> data.len()
            == FD_BEGIN_FLASH_INFO_LEN
    }

    /// The message in `frame`, or `None` when the frame has another identifier.
    pub fn try_from_frame(frame: &CanFrame) -> (r: Option<Self>)
        requires
            Self::decodable(frame.id, frame.data@),
        ensures
            r == Self::parse(frame.id, frame.data@),
    {
        if frame.id == CanId::Standard(BEGIN_FLASH_INFO_ID) {
            let bytes = frame.data.as_slice();
            let app_len = pod_read_u32(slice_subrange(bytes, 0, 4));
            Some(Self { app_len, sector_size: bytes[4] })
        } else {
            None
        }
    }

    /// The frame that carries this message.
    pub fn to_frame(self) -> (f: CanFrame)
        ensures
            f.id == CanId::Standard(BEGIN_FLASH_INFO_ID),
            f.data@ == self.payload(),
    {
        proof {
            lemma_native_u32_roundtrip(self.app_len);
        }
        let mut bytes: Vec<u8> = Vec::new();
        bytes.extend_from_slice(bytes_of_u32(&self.app_len));
        bytes.push(self.sector_size);
        CanFrame::new_data(CanId::Standard(BEGIN_FLASH_INFO_ID), bytes.as_slice()).unwrap()
    }
}

/// Decoding undoes encoding, and encoding undoes decoding, for the FDCAN
/// flash information.
pub proof fn lemma_fd_flash_info_roundtrip(info: BeginFlashInfoMessage, data: Seq<u8>)
    ensures
        info.payload().len() == FD_BEGIN_FLASH_INFO_LEN,
        BeginFlashInfoMessage::parse(CanId::Standard(BEGIN_FLASH_INFO_ID), info.payload())
            == Some(info),
        data.len() == FD_BEGIN_FLASH_INFO_LEN ==> BeginFlashInfoMessage::parse(
            CanId::Standard(BEGIN_FLASH_INFO_ID),
            data,
        ).unwrap().payload() == data,
{
    lemma_native_u32_roundtrip(info.app_len);
    assert(info.payload().take(4) =~= native_u32_bytes(info.app_len));
    if data.len() == FD_BEGIN_FLASH_INFO_LEN {
        lemma_native_u32_bytes_roundtrip(data.take(4));
        assert(BeginFlashInfoMessage::parse(CanId::Standard(BEGIN_FLASH_INFO_ID), data).unwrap().payload() =~= data);
    }
}

} // verus!
