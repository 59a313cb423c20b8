//! The address of the feature configuration port.
//!
//! The device addresses its configuration memory in units of two bytes. The
//! halved address is kept in two registers: the low four bits in one, the
//! next eight bits in the other.

use vstd::prelude::*;

verus! {

/// Number of byte addresses that the two pointer registers can tell apart.
pub const POINTER_SPAN: usize = 8192;

/// What the low pointer register holds for the byte address `addr`.
pub open spec fn pointer_lsb(addr: int) -> int {
    (addr / 2) % 16
}

/// What the high pointer register holds for the byte address `addr`.
pub open spec fn pointer_msb(addr: int) -> int {
    (addr / 2 / 16) % 256
}

/// The byte address that the two pointer registers stand for. Only the low
/// four bits of `asic_lsb` count.
pub open spec fn pointer_address(asic_lsb: int, asic_msb: int) -> int {
    (asic_msb * 16 + asic_lsb % 16) * 2
}

/// Splits a byte address into the values of the two pointer registers.
pub fn split_feature_conf_data_address(addr: usize) -> (regs: (u8, u8))
    ensures
        regs.0 == pointer_lsb(addr as int),
        regs.1 == pointer_msb(addr as int),
{
    let half: usize = addr / 2;
    let low: usize = half & 0x0F;
    let high: usize = (half >> 4) & 0xFF;
    assert(low == half % 16) by (bit_vector)
        requires
            low == half & 0x0F,
    ;
    assert(high == (half / 16) % 256) by (bit_vector)
        requires
            high == (half >> 4) & 0xFF,
    ;
    (low as u8, high as u8)
}

/// Joins the values of the two pointer registers into a byte address.
pub fn join_feature_conf_data_address(asic_lsb: u8, asic_msb: u8) -> (addr: usize)
    ensures
        addr == pointer_address(asic_lsb as int, asic_msb as int),
        addr % 2 == 0,
        addr < POINTER_SPAN,
{
    let low: usize = asic_lsb as usize;
    let high: usize = asic_msb as usize;
    let halved: usize = (high << 4) | (low & 0x0F);
    assert(halved == high * 16 + low % 16) by (bit_vector)
        requires
            halved == (high << 4) | (low & 0x0F),
            high < 256,
            low < 256,
    ;
    halved * 2
}

/// Splitting an address and joining the two register values gives the address
/// back, for every even address that the registers can hold.
pub proof fn lemma_split_then_join(addr: int)
    requires
        0 <= addr < POINTER_SPAN,
        addr % 2 == 0,
    ensures
        pointer_address(pointer_lsb(addr), pointer_msb(addr)) == addr,
{
}

/// Joining two register values and splitting the address gives the high
/// register back unchanged and the low register cut to its four bits.
pub proof fn lemma_join_then_split(asic_lsb: u8, asic_msb: u8)
    ensures
        pointer_lsb(pointer_address(asic_lsb as int, asic_msb as int)) == asic_lsb % 16,
        pointer_msb(pointer_address(asic_lsb as int, asic_msb as int)) == asic_msb,
{
}

} // verus!
