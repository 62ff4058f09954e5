//! Which flash gets erased before an application is written.
use vstd::prelude::*;

verus! {

/// `a / b` rounded up.
pub open spec fn ceil_div(a: int, b: int) -> int {
    (a + b - 1) / b
}

/// The end of the internal-flash region erased for an application of
/// `app_len` bytes placed after a bootloader of `bootloader_size` bytes: the
/// end of the application rounded up to a multiple of the bootloader size.
pub open spec fn app_erase_end(bootloader_size: u32, app_len: u32) -> int {
    ceil_div(bootloader_size + app_len, bootloader_size as int) * bootloader_size
}

/// Whether the erase range for an application can be computed: the
/// bootloader size is not zero and neither the end of the application nor
/// the rounded-up end of the range overflows 32 bits.
pub open spec fn app_erase_range_fits(bootloader_size: u32, app_len: u32) -> bool {
    &&& bootloader_size > 0
    &&& bootloader_size + app_len <= u32::MAX
    &&& app_erase_end(bootloader_size, app_len) <= u32::MAX
}

proof fn lemma_ceil_div_bounds(a: int, b: int)
    requires
        a >= 0,
        b > 0,
    ensures
        ceil_div(a, b) * b >= a,
        ceil_div(a, b) * b < a + b,
        ceil_div(a, b) >= 0,
        (ceil_div(a, b) * b) % b == 0,
{
    let q = ceil_div(a, b);
    assert(q * b >= a && q * b < a + b && q >= 0) by (nonlinear_arith)
        requires
            q == (a + b - 1) / b,
            a >= 0,
            b > 0,
    ;
    assert((q * b) % b == 0) by (nonlinear_arith)
        requires
            b > 0,
    ;
}

proof fn lemma_ceil_div_by_remainder(a: int, b: int, q: int)
    requires
        b > 0,
        a >= 0,
        q == (if a % b != 0 { a / b + 1 } else { a / b }),
    ensures
        q == ceil_div(a, b),
{
    assert(q == ceil_div(a, b)) by (nonlinear_arith)
        requires
            b > 0,
            a >= 0,
            q == (if a % b != 0 { a / b + 1 } else { a / b }),
    ;
}

proof fn lemma_quotient_below_max(a: int, b: int)
    requires
        b > 0,
        a % b != 0,
        0 <= a <= u32::MAX,
    ensures
        a / b < u32::MAX,
{
    assert(a / b < u32::MAX) by (nonlinear_arith)
        requires
            b > 0,
            a % b != 0,
            0 <= a <= u32::MAX,
    ;
}

/// The end of the erase range covers the application and stops short of a
/// whole bootloader size more, at a multiple of the bootloader size.
pub proof fn lemma_app_erase_end_bounds(bootloader_size: u32, app_len: u32)
    requires
        bootloader_size > 0,
    ensures
        app_erase_end(bootloader_size, app_len) >= bootloader_size + app_len,
        app_erase_end(bootloader_size, app_len) < bootloader_size + app_len + bootloader_size,
        app_erase_end(bootloader_size, app_len) % (bootloader_size as int) == 0,
{
    lemma_ceil_div_bounds(bootloader_size + app_len, bootloader_size as int);
}

/// When the range can be computed: a zero bootloader size never can, nor
/// can an application end past 32 bits; a range whose end plus one more
/// bootloader size still fits in 32 bits always can.
pub proof fn lemma_app_erase_range_fits_when(bootloader_size: u32, app_len: u32)
    ensures
        app_erase_range_fits(bootloader_size, app_len) ==> bootloader_size > 0 && bootloader_size
            + app_len <= u32::MAX,
        bootloader_size > 0 && bootloader_size + app_len + bootloader_size <= u32::MAX + 1
            ==> app_erase_range_fits(bootloader_size, app_len),
{
    if bootloader_size > 0 {
        lemma_ceil_div_bounds(bootloader_size + app_len, bootloader_size as int);
    }
}

/// When the erase blocks can be listed: never for a non-empty application
/// with a zero block size; always when the end of the application plus one
/// block still fits in 32 bits.
pub proof fn lemma_erase_blocks_fit_when(app_len: u32, erase_size: u32)
    ensures
        erase_size == 0 ==> (erase_blocks_fit(app_len, erase_size) <==> app_len == 0),
        erase_size > 0 && app_len + erase_size <= u32::MAX + 1 ==> erase_blocks_fit(app_len, erase_size),
{
    if erase_size > 0 {
        lemma_ceil_div_bounds(app_len as int, erase_size as int);
    }
}

/// Whether [`app_erase_range`] can be called on these values without
/// overflowing.
pub fn app_erase_range_fits_exec(bootloader_size: u32, app_len: u32) -> (r: bool)
    ensures
        r == app_erase_range_fits(bootloader_size, app_len),
{
    if bootloader_size == 0 {
        return false;
    }
    let end = match bootloader_size.checked_add(app_len) {
        Some(e) => e,
        None => return false,
    };
    let q = end / bootloader_size;
    let q = if end % bootloader_size != 0 {
        proof {
            lemma_quotient_below_max(end as int, bootloader_size as int);
        }
        q + 1
    } else {
        q
    };
    proof {
        let a = end as int;
        let b = bootloader_size as int;
        lemma_ceil_div_by_remainder(a, b, q as int);
    }
    q.checked_mul(bootloader_size).is_some()
}

/// The internal-flash region `(from, to)` erased before an application of
/// `app_len` bytes is written after a bootloader of `bootloader_size` bytes:
/// from the end of the bootloader to the end of the application rounded up
/// to a multiple of the bootloader size.
pub fn app_erase_range(bootloader_size: u32, app_len: u32) -> (r: (u32, u32))
    requires
        app_erase_range_fits(bootloader_size, app_len),
    ensures
        r.0 == bootloader_size,
        r.1 == app_erase_end(bootloader_size, app_len),
        r.1 >= bootloader_size + app_len,
        r.1 < bootloader_size + app_len + bootloader_size,
        r.1 % bootloader_size == 0,
{
    let end = bootloader_size + app_len;
    let q = end / bootloader_size;
    let q = if end % bootloader_size != 0 {
        proof {
            lemma_quotient_below_max(end as int, bootloader_size as int);
        }
        q + 1
    } else {
        q
    };
    proof {
        let a = end as int;
        let b = bootloader_size as int;
        lemma_ceil_div_by_remainder(a, b, q as int);
        lemma_ceil_div_bounds(a, b);
    }
    (bootloader_size, q * bootloader_size)
}

/// Whether [`erase_block_addresses`] can be called on these values: the loop
/// over erase blocks ends (a zero block size only with nothing to erase) and
/// the address after the last block fits in 32 bits.
pub open spec fn erase_blocks_fit(app_len: u32, erase_size: u32) -> bool {
    if erase_size == 0 {
        app_len == 0
    } else {
        ceil_div(app_len as int, erase_size as int) * erase_size <= u32::MAX
    }
}

/// The number of erase blocks that cover `app_len` bytes.
pub open spec fn erase_block_count(app_len: u32, erase_size: u32) -> int {
    if erase_size == 0 {
        0
    } else {
        ceil_div(app_len as int, erase_size as int)
    }
}

/// Whether [`erase_block_addresses`] can be called on these values.
pub fn erase_blocks_fit_exec(app_len: u32, erase_size: u32) -> (r: bool)
    ensures
        r == erase_blocks_fit(app_len, erase_size),
{
    if erase_size == 0 {
        return app_len == 0;
    }
    let q = app_len / erase_size;
    let q = if app_len % erase_size != 0 {
        proof {
            lemma_quotient_below_max(app_len as int, erase_size as int);
        }
        q + 1
    } else {
        q
    };
    proof {
        let a = app_len as int;
        let b = erase_size as int;
        lemma_ceil_div_by_remainder(a, b, q as int);
    }
    q.checked_mul(erase_size).is_some()
}

/// The start addresses of the external-flash blocks erased before an
/// application of `app_len` bytes is written: `0, erase_size, 2 * erase_size,
/// ...`, every block that starts below `app_len`.
pub fn erase_block_addresses(app_len: u32, erase_size: u32) -> (r: Vec<u32>)
    requires
        erase_blocks_fit(app_len, erase_size),
    ensures
        r@.len() == erase_block_count(app_len, erase_size),
        forall|i: int| 0 <= i < r@.len() ==> #[trigger] r@[i] == i * erase_size,
        forall|i: int| 0 <= i < r@.len() ==> #[trigger] r@[i] < app_len,
        r@.len() * erase_size >= app_len,
{
    let mut r: Vec<u32> = Vec::new();
    let mut addr: u32 = 0;
    proof {
        if erase_size > 0 {
            lemma_ceil_div_bounds(app_len as int, erase_size as int);
        }
    }
    while addr < app_len
        invariant
            erase_size > 0 || app_len == 0,
            erase_blocks_fit(app_len, erase_size),
            addr == r@.len() * erase_size,
            r@.len() <= erase_block_count(app_len, erase_size),
            forall|i: int| 0 <= i < r@.len() ==> #[trigger] r@[i] == i * erase_size,
            forall|i: int| 0 <= i < r@.len() ==> #[trigger] r@[i] < app_len,
            erase_size > 0 ==> erase_block_count(app_len, erase_size) * erase_size < app_len
                + erase_size,
            erase_size > 0 ==> erase_block_count(app_len, erase_size) * erase_size >= app_len,
        decreases erase_block_count(app_len, erase_size) - r@.len(),
    {
        let ghost n = r@.len();
        let ghost c = erase_block_count(app_len, erase_size);
        proof {
            // A block starts below `app_len`, so fewer than all blocks are listed.
            assert(n < c) by (nonlinear_arith)
                requires
                    n * erase_size < app_len,
                    c * erase_size >= app_len,
                    erase_size > 0,
            ;
            assert((n + 1) * erase_size <= c * erase_size) by (nonlinear_arith)
                requires
                    n + 1 <= c,
                    erase_size > 0,
            ;
            assert((n + 1) * erase_size == n * erase_size + erase_size) by (nonlinear_arith);
        }
        r.push(addr);
        addr = addr + erase_size;
    }
    proof {
        let n = r@.len();
        let c = erase_block_count(app_len, erase_size);
        if erase_size > 0 {
            assert(n == c) by (nonlinear_arith)
                requires
                    n * erase_size >= app_len,
                    c * erase_size < app_len + erase_size,
                    n <= c,
                    erase_size > 0,
            ;
        }
    }
    r
}

} // verus!
