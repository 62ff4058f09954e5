//! Memory protection unit settings that let the application execute in
//! place from the memory-mapped external flash.
use vstd::prelude::*;

verus! {

/// Region size code of a 256 MiB region (the region spans `2^(code + 1)`
/// bytes).
pub const EXTERNAL_FLASH_REGION_SIZE_CODE: u32 = 27;

/// Control register bits: enable the MPU (bit 0) and keep the default memory
/// map for privileged accesses outside every region (bit 2).
pub const MPU_CTRL_ENABLE_WITH_DEFAULT_MAP: u32 = 0x5;

/// The region attribute and size register value for the external flash:
/// executable (XN = 0), full access (AP = 0b011), TEX = 0, not shareable,
/// cacheable, write-through (B = 0), no sub-region disabled, the given size
/// code, region enabled; the reserved bits are clear.
pub open spec fn external_flash_rasr_fields(r: u32, size_code: u32) -> bool {
    &&& (r >> 28) & 1 == 0
    &&& (r >> 24) & 0b111 == 0b011
    &&& (r >> 19) & 0b111 == 0
    &&& (r >> 18) & 1 == 0
    &&& (r >> 17) & 1 == 1
    &&& (r >> 16) & 1 == 0
    &&& (r >> 8) & 0xFF == 0
    &&& (r >> 1) & 0x1F == size_code
    &&& r & 1 == 1
    &&& r & 0xE8E0_00C0 == 0
}

/// The region attribute and size register value for the external flash
/// region of size code `size_code`.
pub fn external_flash_rasr(size_code: u32) -> (r: u32)
    requires
        size_code < 32,
    ensures
        r == (0b011u32 << 24) | (1u32 << 17) | (size_code << 1) | 1u32,
        external_flash_rasr_fields(r, size_code),
{
    let r: u32 = (0u32 << 28) | (0b011u32 << 24) | (0b000u32 << 19) | (0u32 << 18) | (1u32 << 17)
        | (0u32 << 16) | (0u32 << 8) | (size_code << 1) | 1u32;
    assert(external_flash_rasr_fields(r, size_code) && r == (0b011u32 << 24) | (1u32 << 17) | (
    size_code << 1) | 1u32) by (bit_vector)
        requires
            size_code < 32,
            r == (0u32 << 28) | (0b011u32 << 24) | (0b000u32 << 19) | (0u32 << 18) | (1u32 << 17)
                | (0u32 << 16) | (0u32 << 8) | (size_code << 1) | 1u32,
    ;
    r
}

/// The control register value after enabling the MPU with the default
/// memory map: `ctrl` with bits 0 and 2 set and every other bit kept.
pub fn mpu_ctrl_enabled(ctrl: u32) -> (r: u32)
    ensures
        r == ctrl | MPU_CTRL_ENABLE_WITH_DEFAULT_MAP,
        r & 1 == 1,
        r & 4 == 4,
        r & !MPU_CTRL_ENABLE_WITH_DEFAULT_MAP == ctrl & !MPU_CTRL_ENABLE_WITH_DEFAULT_MAP,
{
    let r = ctrl | MPU_CTRL_ENABLE_WITH_DEFAULT_MAP;
    assert(r & 1 == 1 && r & 4 == 4 && r & !5u32 == ctrl & !5u32) by (bit_vector)
        requires
            r == ctrl | 5u32,
    ;
    r
}

} // verus!
