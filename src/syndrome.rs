//! Decoding of the exception syndrome register.
use vstd::prelude::*;

verus! {

/// Exception class of a `BRK` instruction executed in AArch64 state.
pub const EC_BRK64: u32 = 0x3c;

/// Exception class of an `HVC` instruction executed in AArch64 state.
pub const EC_HVC64: u32 = 0x16;

/// The cause of a synchronous exception, as far as the monitor handles it.
#[derive(PartialEq, Eq, Structural, Clone, Copy, Debug)]
pub enum Syndrome {
    /// A breakpoint instruction, with its 16-bit immediate.
    Brk(u16),
    /// A hypervisor call.
    HVC,
    /// Any other cause; holds the raw register value for diagnostics.
    Undefined(u32),
}

/// Bits 31..26 of the syndrome register: the exception class.
pub open spec fn exception_class(esr: u32) -> u32 {
    esr / 0x400_0000
}

/// Bits 15..0 of the syndrome register: the immediate of a `BRK` or `HVC`.
pub open spec fn immediate16(esr: u32) -> u16 {
    (esr % 0x1_0000) as u16
}

/// What a raw syndrome value means.
pub open spec fn syndrome_of(esr: u32) -> Syndrome {
    if exception_class(esr) == EC_BRK64 {
        Syndrome::Brk(immediate16(esr))
    } else if exception_class(esr) == EC_HVC64 {
        Syndrome::HVC
    } else {
        Syndrome::Undefined(esr)
    }
}

/// Decodes a raw syndrome value. Every value decodes: the ones of no known
/// class become `Undefined`.
pub fn decode(esr: u32) -> (r: Syndrome)
    ensures
        r == syndrome_of(esr),
{
    let ec: u32 = esr >> 26u32;
    assert(ec == esr / 0x400_0000) by (bit_vector)
        requires
            ec == esr >> 26u32,
    ;
    if ec == EC_BRK64 {
        let imm: u32 = esr & 0xffffu32;
        assert(imm == esr % 0x1_0000) by (bit_vector)
            requires
                imm == esr & 0xffffu32,
        ;
        Syndrome::Brk(imm as u16)
    } else if ec == EC_HVC64 {
        Syndrome::HVC
    } else {
        Syndrome::Undefined(esr)
    }
}

/// Decoding is total and deterministic: each raw value decodes to exactly one
/// variant, and equal values decode to equal syndromes.
pub proof fn lemma_decode_total_deterministic(a: u32, b: u32)
    ensures
        syndrome_of(a) is Brk || syndrome_of(a) is HVC || syndrome_of(a) is Undefined,
        !(syndrome_of(a) is Brk && syndrome_of(a) is HVC),
        !(syndrome_of(a) is Brk && syndrome_of(a) is Undefined),
        !(syndrome_of(a) is HVC && syndrome_of(a) is Undefined),
        a == b ==> syndrome_of(a) == syndrome_of(b),
{
}

} // verus!
