//! Byte-lane and address-decode arithmetic: the little-endian lane semantics
//! of partial-width port accesses, and the bus / device-function / register
//! fields decoded from a latched CONFIG_ADDRESS value.

use vstd::prelude::*;

verus! {

/// Bit 31 of the latched CONFIG_ADDRESS value: the enable flag.
pub const CONFIG_ADDRESS_ENABLE_MASK: u32 = 0x8000_0000;

/// Size in bytes of one device's visible configuration window.
pub const CONFIG_WINDOW_SIZE: usize = 256;

/// The access widths the mechanism accepts, in bytes.
pub open spec fn valid_width(w: u8) -> bool {
    w == 1 || w == 2 || w == 4
}

/// The low `w` bytes of `v`, packed little-endian into a u32 (so, `v`
/// truncated to its low `w` bytes).
pub open spec fn low_bytes(v: u32, w: u8) -> u32
    recommends
        valid_width(w),
{
    if w == 1 {
        v & 0xff
    } else if w == 2 {
        v & 0xffff
    } else {
        v
    }
}

/// The low `w` bytes of `v`, as a little-endian byte sequence.
pub open spec fn le_bytes_of(v: u32, w: u8) -> Seq<u8>
    recommends
        valid_width(w),
{
    if w == 1 {
        seq![(v & 0xff) as u8]
    } else if w == 2 {
        seq![(v & 0xff) as u8, ((v >> 8) & 0xff) as u8]
    } else {
        seq![
            (v & 0xff) as u8,
            ((v >> 8) & 0xff) as u8,
            ((v >> 16) & 0xff) as u8,
            ((v >> 24) & 0xff) as u8,
        ]
    }
}

/// The u32 assembled little-endian from the first `w` entries of `s`.
pub open spec fn le_value(s: Seq<u8>, w: u8) -> u32
    recommends
        valid_width(w),
        s.len() >= w,
{
    if w == 1 {
        s[0] as u32
    } else if w == 2 {
        (s[0] as u32) | ((s[1] as u32) << 8)
    } else {
        (s[0] as u32) | ((s[1] as u32) << 8) | ((s[2] as u32) << 16) | ((s[3] as u32) << 24)
    }
}

/// A configuration window `c` with `data` overlaid starting at `off`.
/// Bytes that would fall past the end of the window are dropped.
pub open spec fn write_bytes(c: Seq<u8>, off: int, data: Seq<u8>) -> Seq<u8> {
    Seq::new(c.len(), |j: int| if off <= j < off + data.len() {
        data[j - off]
    } else {
        c[j]
    })
}

/// The four data-port lanes as read at `off` from configuration window `c`:
/// lanes past the end of the window read as 0xff.
pub open spec fn scratch_after_read(c: Seq<u8>, off: int) -> Seq<u8> {
    Seq::new(4, |k: int| if 0 <= off + k < c.len() {
        c[off + k]
    } else {
        0xffu8
    })
}

/// What the four data-port lanes hold when no device answers: the universal
/// all-ones "unimplemented function" pattern.
pub open spec fn no_device_scratch() -> Seq<u8> {
    seq![0xffu8, 0xffu8, 0xffu8, 0xffu8]
}

/// The effective configuration offset of a data-port access: the latch with
/// the enable bit masked out, plus the lane (0-3) selected by the port.
pub open spec fn effective_offset(addr: u32, lane: u16) -> u32
    recommends
        lane < 4,
{
    ((addr & !CONFIG_ADDRESS_ENABLE_MASK) + lane) as u32
}

/// Bits [23:16] of the effective offset: the bus number.
pub open spec fn bus_number_of(eff: u32) -> u8 {
    ((eff >> 16) & 0xff) as u8
}

/// Bits [15:8] of the effective offset: the device/function byte.
pub open spec fn devfn_of(eff: u32) -> u8 {
    ((eff >> 8) & 0xff) as u8
}

/// Bits [7:0] of the effective offset: the in-device register offset.
pub open spec fn register_offset_of(eff: u32) -> u32 {
    eff & 0xff
}

/// The enable bit masked out of the latch leaves at most 31 bits, so adding
/// a data-port lane to it stays well inside u32 range.
pub proof fn lemma_masked_addr_bound(addr: u32)
    ensures
        addr & !CONFIG_ADDRESS_ENABLE_MASK <= 0x7fff_ffff,
{
    assert(addr & !0x8000_0000u32 <= 0x7fff_ffff) by (bit_vector);
}

/// Each extracted byte field of a u32 fits in a byte.
pub proof fn lemma_byte_masks_fit(v: u32)
    ensures
        v & 0xff <= 0xff,
        (v >> 8) & 0xff <= 0xff,
        (v >> 16) & 0xff <= 0xff,
        (v >> 24) & 0xff <= 0xff,
{
    assert(v & 0xff <= 0xff && (v >> 8) & 0xff <= 0xff && (v >> 16) & 0xff <= 0xff && (v >> 24)
        & 0xff <= 0xff) by (bit_vector);
}

/// A read of `w` lanes sees all bits set when no device answers.
pub proof fn lemma_no_device_reads_all_ones(w: u8)
    requires
        valid_width(w),
    ensures
        le_value(no_device_scratch(), w) == low_bytes(0xffff_ffffu32, w),
{
    assert(0xffu8 as u32 == 0xffff_ffffu32 & 0xff) by (bit_vector);
    assert((0xffu8 as u32) | ((0xffu8 as u32) << 8) == 0xffff_ffffu32 & 0xffff) by (bit_vector);
    assert((0xffu8 as u32) | ((0xffu8 as u32) << 8) | ((0xffu8 as u32) << 16) | ((0xffu8 as u32)
        << 24) == 0xffff_ffffu32) by (bit_vector);
}

/// The in-device register offset always lies inside the 256-byte window: an
/// access near the top of the window wraps around modulo the window size
/// instead of spilling past it.
pub proof fn lemma_register_offset_wraps(addr: u32, lane: u16)
    requires
        lane < 4,
    ensures
        register_offset_of(effective_offset(addr, lane)) < 256,
        register_offset_of(effective_offset(addr, lane)) == ((addr % 256) + lane) % 256,
{
    assert((((addr & !0x8000_0000u32) + lane) as u32) & 0xff == ((addr % 256) + lane) % 256
        && (((addr & !0x8000_0000u32) + lane) as u32) & 0xff < 256) by (bit_vector)
        requires
            lane < 4,
    ;
}

/// Round trip through a storage-backed configuration window: overlaying the
/// low `w` bytes of `v` at `off` and then reading `w` lanes back at `off`
/// yields exactly the low `w` bytes of `v`.  The written bytes must lie
/// inside the window (`off + w <= 256`): bytes aimed past its top are
/// dropped, and the lanes over them read back as 0xff instead.
pub proof fn lemma_config_write_read_round_trip(c: Seq<u8>, off: int, w: u8, v: u32)
    requires
        c.len() == 256,
        valid_width(w),
        0 <= off,
        off + w <= 256,
    ensures
        le_value(scratch_after_read(write_bytes(c, off, le_bytes_of(v, w)), off), w) == low_bytes(
            v,
            w,
        ),
{
    let data = le_bytes_of(v, w);
    let wr = write_bytes(c, off, data);
    let sc = scratch_after_read(wr, off);
    assert(forall|k: int| 0 <= k < w ==> sc[k] == data[k]);
    if w == 1 {
        assert(((v & 0xff) as u8) as u32 == v & 0xff) by (bit_vector);
    } else if w == 2 {
        assert((((v & 0xff) as u8) as u32) | (((((v >> 8) & 0xff) as u8) as u32) << 8) == v
            & 0xffff) by (bit_vector);
    } else {
        assert((((v & 0xff) as u8) as u32) | (((((v >> 8) & 0xff) as u8) as u32) << 8) | (((((v
            >> 16) & 0xff) as u8) as u32) << 16) | (((((v >> 24) & 0xff) as u8) as u32) << 24)
            == v) by (bit_vector);
    }
}

} // verus!
