//! The buffer in which one flash sector is assembled from `FlashDataMessage`s
//! before it is written to flash.
use crate::can::FLASH_DATA_CHUNK_LEN;
use vstd::prelude::*;

verus! {

/// Capacity of the sector buffer: 32 messages of 7 bytes.
pub const FLASH_SECTOR_WRITE_SIZE: usize = 224;

/// Number of messages that fill the sector buffer.
pub const MESSAGES_PER_SECTOR: usize = 32;

/// `data` with `chunk` written over it from byte `index` on.
pub open spec fn with_chunk(data: Seq<u8>, index: int, chunk: Seq<u8>) -> Seq<u8> {
    data.take(index) + chunk + data.skip(index + chunk.len())
}

/// A sector being received: where it goes in the application image, and its
/// bytes so far.
pub struct FlashSectorToWrite {
    pub offset: u32,
    pub data: [u8; FLASH_SECTOR_WRITE_SIZE],
}

impl FlashSectorToWrite {
    /// A sector buffer full of zeros, with no offset assigned yet (`u32::MAX`).
    pub fn empty() -> (s: Self)
        ensures
            s.offset == u32::MAX,
            s.data@ == Seq::new(FLASH_SECTOR_WRITE_SIZE as nat, |i: int| 0u8),
    {
        let s = Self { offset: u32::MAX, data: [0u8; FLASH_SECTOR_WRITE_SIZE] };
        assert(s.data@ =~= Seq::new(FLASH_SECTOR_WRITE_SIZE as nat, |i: int| 0u8));
        s
    }

    /// Copies the seven bytes of one data message to bytes
    /// `index .. index + 7` of the sector.
    pub fn write_chunk(&mut self, index: usize, chunk: &[u8; 7])
        requires
            index + FLASH_DATA_CHUNK_LEN <= FLASH_SECTOR_WRITE_SIZE,
        ensures
            final(self).offset == old(self).offset,
            final(self).data@ == with_chunk(old(self).data@, index as int, chunk@),
    {
        let ghost before = self.data@;
        let mut k: usize = 0;
        while k < FLASH_DATA_CHUNK_LEN
            invariant
                k <= FLASH_DATA_CHUNK_LEN,
                index + FLASH_DATA_CHUNK_LEN <= FLASH_SECTOR_WRITE_SIZE,
                self.offset == old(self).offset,
                before == old(self).data@,
                self.data@ == before.take(index as int) + chunk@.take(k as int) + before.skip(
                    index + k,
                ),
            decreases FLASH_DATA_CHUNK_LEN - k,
        {
            self.data[index + k] = chunk[k];
            assert(self.data@ =~= before.take(index as int) + chunk@.take(k + 1) + before.skip(
                index + k + 1,
            ));
            k = k + 1;
        }
        assert(chunk@.take(7) =~= chunk@);
    }

    /// The first `len` bytes of the sector.
    pub fn prefix(&self, len: usize) -> (r: Vec<u8>)
        requires
            len <= FLASH_SECTOR_WRITE_SIZE,
        ensures
            r@ == self.data@.take(len as int),
    {
        let mut r: Vec<u8> = Vec::new();
        let mut k: usize = 0;
        while k < len
            invariant
                k <= len <= FLASH_SECTOR_WRITE_SIZE,
                r@ == self.data@.take(k as int),
            decreases len - k,
        {
            r.push(self.data[k]);
            assert(r@ =~= self.data@.take(k + 1));
            k = k + 1;
        }
        r
    }
}

} // verus!
