//! Register values for the local interrupt controller.
//!
//! Reading and writing the registers is the embedding kernel's business;
//! this module says which value goes into which register.

use vstd::prelude::*;
use bit_field::BitField;

verus! {

/// Default physical address of the controller's registers.
pub const LAPIC_ADDR: u64 = 0xFEE0_0000;

/// Identification register.
pub const REG_ID: u32 = 0x20;

/// Version register.
pub const REG_VERSION: u32 = 0x30;

/// Task priority register.
pub const REG_TPR: u32 = 0x80;

/// End-of-interrupt register.
pub const REG_EOI: u32 = 0xB0;

/// Spurious interrupt vector register.
pub const REG_SPIV: u32 = 0xF0;

/// Error status register.
pub const REG_ESR: u32 = 0x280;

/// Interrupt command register, low half.
pub const REG_ICR_LOW: u32 = 0x300;

/// Interrupt command register, high half.
pub const REG_ICR_HIGH: u32 = 0x310;

/// Timer entry of the local vector table.
pub const REG_LVT_TIMER: u32 = 0x320;

/// Performance counter entry of the local vector table.
pub const REG_PCINT: u32 = 0x340;

/// First local interrupt line.
pub const REG_LINT0: u32 = 0x350;

/// Second local interrupt line.
pub const REG_LINT1: u32 = 0x360;

/// Error entry of the local vector table.
pub const REG_ERROR: u32 = 0x370;

/// Initial count of the timer.
pub const REG_INITIAL_COUNT: u32 = 0x380;

/// Divide configuration of the timer.
pub const REG_TIMER_DIVIDE: u32 = 0x3E0;

/// Enables the controller, in the spurious interrupt vector register.
pub const SPURIOUS_ENABLE: u32 = 0x100;

/// Masks an entry of the local vector table.
pub const LVT_MASK: u32 = 0x1_0000;

/// Makes the timer periodic, in its entry of the local vector table.
pub const TIMER_PERIODIC: u32 = 0x2_0000;

/// Divides the bus frequency by one, in the divide configuration.
pub const DIVIDE_BY_1: u32 = 0b1011;

/// Count that the timer starts from.
pub const TIMER_INITIAL_COUNT: u32 = 0x2_0000;

/// Set in the interrupt command register while a command is being delivered.
pub const DELIVERY_PENDING: u32 = 0x1000;

/// Bit of [`DELIVERY_PENDING`].
pub const DELIVERY_PENDING_BIT: usize = 12;

/// The command that synchronises the arbitration identifiers: an `INIT`,
/// level triggered, sent to all.
pub const INIT_LEVEL_DE_ASSERT: u32 = 0x8_8500;

/// Interrupt vector of request line 0.
pub const IRQ_BASE: u8 = 0x20;

/// Request line of the timer.
pub const IRQ_TIMER: u8 = 0;

/// Request line of controller errors.
pub const IRQ_ERROR: u8 = 19;

/// Request line of spurious interrupts.
pub const IRQ_SPURIOUS: u8 = 31;

/// Whether bit `bit` of `value` is set.
///
/// Calls `bit_field::BitField::get_bit` for `u32`, which refuses a bit
/// number of 32 or more.
#[verifier::external_body]
fn bit_of(value: u32, bit: usize) -> (set: bool)
    requires
        bit < 32,
    ensures
        set == (value & (1u32 << (bit as u32)) != 0),
{
    value.get_bit(bit)
}

/// `value` with its lowest byte replaced by `vector`.
pub open spec fn with_vector(value: u32, vector: u8) -> u32 {
    (value & 0xFFFF_FF00) | (vector as u32)
}

/// The spurious interrupt vector register that enables the controller and
/// delivers spurious interrupts at `vector`: the lowest byte is the vector,
/// the enable bit is set, every other bit stays as it is.
pub fn spurious_vector(spiv: u32, vector: u8) -> (value: u32)
    ensures
        value == with_vector(spiv, vector) | SPURIOUS_ENABLE,
        value & 0xFF == vector,
        value & SPURIOUS_ENABLE == SPURIOUS_ENABLE,
{
    let byte = vector as u32;
    let mut value = spiv;
    value = value | SPURIOUS_ENABLE;
    value = value & !0xFFu32;
    value = value | byte;
    assert(value == ((spiv & 0xFFFF_FF00) | byte) | 0x100 && value & 0xFF == byte && value
        & 0x100 == 0x100) by (bit_vector)
        requires
            byte <= 0xFF,
            value == (((spiv | 0x100) & !0xFFu32) | byte),
    ;
    value
}

/// The timer entry that delivers the timer interrupt at `vector`,
/// unmasked and periodic: the lowest byte is the vector, the mask bit is
/// clear, the periodic bit is set, every other bit stays as it is.
pub fn timer_entry(lvt: u32, vector: u8) -> (value: u32)
    ensures
        value == (with_vector(lvt, vector) & 0xFFFE_FFFF) | TIMER_PERIODIC,
        value & 0xFF == vector,
        value & LVT_MASK == 0,
        value & TIMER_PERIODIC == TIMER_PERIODIC,
{
    let byte = vector as u32;
    let mut value = lvt;
    value = value & !0xFFu32;
    value = value | byte;
    value = value & !LVT_MASK;
    value = value | TIMER_PERIODIC;
    assert(value == ((((lvt & 0xFFFF_FF00) | byte) & 0xFFFE_FFFF) | 0x2_0000) && value & 0xFF
        == byte && value & 0x1_0000 == 0 && value & 0x2_0000 == 0x2_0000) by (bit_vector)
        requires
            byte <= 0xFF,
            value == ((((lvt & !0xFFu32) | byte) & !0x1_0000u32) | 0x2_0000),
    ;
    value
}

/// The error entry that delivers controller errors at `vector`, unmasked:
/// the lowest byte is the vector, the mask bit is clear, every other bit
/// stays as it is.
pub fn error_entry(lvt: u32, vector: u8) -> (value: u32)
    ensures
        value == with_vector(lvt, vector) & 0xFFFE_FFFF,
        value & 0xFF == vector,
        value & LVT_MASK == 0,
{
    let byte = vector as u32;
    let mut value = lvt;
    value = value & !0xFFu32;
    value = value | byte;
    value = value & !LVT_MASK;
    assert(value == (((lvt & 0xFFFF_FF00) | byte) & 0xFFFE_FFFF) && value & 0xFF == byte
        && value & 0x1_0000 == 0) by (bit_vector)
        requires
            byte <= 0xFF,
            value == (((lvt & !0xFFu32) | byte) & !0x1_0000u32),
    ;
    value
}

/// The identifier of the controller, from its identification register.
pub fn apic_id(id_register: u32) -> (id: u32)
    ensures
        id == id_register >> 24,
        id <= 0xFF,
{
    let id = id_register >> 24;
    assert(id_register >> 24 <= 0xFF) by (bit_vector);
    id
}

/// The interrupt command made of its two halves.
pub open spec fn icr_of(high: u32, low: u32) -> u64 {
    ((high as u64) << 32) | (low as u64)
}

/// The interrupt command register as one value.
pub fn icr(high: u32, low: u32) -> (value: u64)
    ensures
        value == icr_of(high, low),
{
    ((high as u64) << 32) | (low as u64)
}

/// The halves of an interrupt command, high half first.
pub fn icr_halves(value: u64) -> (halves: (u32, u32))
    ensures
        halves.0 == (value >> 32) as u32,
        halves.1 == (value & 0xFFFF_FFFF) as u32,
        icr_of(halves.0, halves.1) == value,
{
    let high = (value >> 32) as u32;
    let low = (value & 0xFFFF_FFFF) as u32;
    assert((value >> 32) <= 0xFFFF_FFFF && (value & 0xFFFF_FFFF) <= 0xFFFF_FFFF && (((value
        >> 32) << 32) | (value & 0xFFFF_FFFF)) == value) by (bit_vector);
    assert(high as u64 == value >> 32);
    assert(low as u64 == value & 0xFFFF_FFFF);
    (high, low)
}

/// Whether a command is still being delivered, from the low half of the
/// interrupt command register.
pub fn delivery_pending(icr_low: u32) -> (pending: bool)
    ensures
        pending == (icr_low & DELIVERY_PENDING != 0),
{
    let pending = bit_of(icr_low, DELIVERY_PENDING_BIT);
    assert((1u32 << 12u32) == 0x1000u32) by (bit_vector);
    pending
}

} // verus!
