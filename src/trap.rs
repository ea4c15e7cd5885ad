//! Classification of exceptions taken by the monitor, from its own code or
//! from a realm.
use vstd::prelude::*;

use crate::syndrome::{decode, syndrome_of, Syndrome};

verus! {

/// Where an exception was taken from.
#[derive(PartialEq, Eq, Structural, Clone, Copy, Debug)]
pub enum Source {
    CurrentSPEL0,
    CurrentSPELx,
    LowerAArch64,
    LowerAArch32,
}

/// What kind of exception was taken.
#[derive(PartialEq, Eq, Structural, Clone, Copy, Debug)]
pub enum Kind {
    Synchronous,
    Irq,
    Fiq,
    SError,
}

/// The source and kind of one exception, as the vector stub reports them.
#[derive(PartialEq, Eq, Structural, Clone, Copy, Debug)]
pub struct Info {
    pub source: Source,
    pub kind: Kind,
}

/// The source whose tag is `t`, in the order of the vector table.
pub open spec fn source_of_tag(t: u16) -> Option<Source> {
    if t == 0 {
        Some(Source::CurrentSPEL0)
    } else if t == 1 {
        Some(Source::CurrentSPELx)
    } else if t == 2 {
        Some(Source::LowerAArch64)
    } else if t == 3 {
        Some(Source::LowerAArch32)
    } else {
        None
    }
}

/// The kind whose tag is `t`, in the order of the vector table.
pub open spec fn kind_of_tag(t: u16) -> Option<Kind> {
    if t == 0 {
        Some(Kind::Synchronous)
    } else if t == 1 {
        Some(Kind::Irq)
    } else if t == 2 {
        Some(Kind::Fiq)
    } else if t == 3 {
        Some(Kind::SError)
    } else {
        None
    }
}

impl Info {
    /// Reads the two 16-bit tags that the vector stub passes; `None` where
    /// either names no source or kind.
    pub fn from_tags(source: u16, kind: u16) -> (r: Option<Info>)
        ensures
            r is Some <==> source_of_tag(source) is Some && kind_of_tag(kind) is Some,
            r matches Some(i) ==> Some(i.source) == source_of_tag(source) && Some(i.kind)
                == kind_of_tag(kind),
    {
        let s = match source {
            0 => Source::CurrentSPEL0,
            1 => Source::CurrentSPELx,
            2 => Source::LowerAArch64,
            3 => Source::LowerAArch32,
            _ => return None,
        };
        let k = match kind {
            0 => Kind::Synchronous,
            1 => Kind::Irq,
            2 => Kind::Fiq,
            3 => Kind::SError,
            _ => return None,
        };
        Some(Info { source: s, kind: k })
    }

    pub fn new(source: Source, kind: Kind) -> (r: Info)
        ensures
            r.source == source,
            r.kind == kind,
    {
        Info { source, kind }
    }
}

/// The exception return state of the monitor's own context.
#[derive(PartialEq, Eq, Structural, Clone, Copy, Debug)]
pub struct TrapFrame {
    /// Address at which execution resumes.
    pub elr: u64,
    /// Saved processor state.
    pub spsr: u64,
}

/// Length of one A64 instruction, the step past a breakpoint.
pub const INSTRUCTION_SIZE: u64 = 4;

/// Dispatch code that hands a hypervisor call from a realm to the command loop.
pub const HVC_DISPATCH: u64 = 1;

/// Dispatch code for an exception that asks for no action.
pub const NO_ACTION: u64 = 0;

/// Why an exception taken from the monitor's own code stops the monitor.
#[derive(PartialEq, Eq, Structural, Clone, Copy, Debug)]
pub enum Fatal {
    /// A synchronous exception with no defined handling.
    Sync(Syndrome),
    /// An interrupt or system error, which the monitor never expects.
    Async(Kind),
}

/// Whether an exception from the monitor's own code is a breakpoint.
pub open spec fn is_monitor_breakpoint(info: Info, esr: u32) -> bool {
    info.kind == Kind::Synchronous && syndrome_of(esr) is Brk
}

/// Whether the instruction after the one at `elr` has an address.
pub open spec fn can_step(elr: u64) -> bool {
    elr + INSTRUCTION_SIZE <= u64::MAX
}

/// The outcome of an exception of kind `kind` with syndrome value `esr`
/// taken from the monitor's own code with frame `tf`: the result, and the
/// frame execution resumes with.
pub open spec fn monitor_outcome(kind: Kind, esr: u32, tf: TrapFrame) -> (Result<(), Fatal>, TrapFrame) {
    if kind != Kind::Synchronous {
        (Err(Fatal::Async(kind)), tf)
    } else if syndrome_of(esr) is Brk && can_step(tf.elr) {
        (Ok(()), TrapFrame { elr: (tf.elr + INSTRUCTION_SIZE) as u64, spsr: tf.spsr })
    } else {
        (Err(Fatal::Sync(syndrome_of(esr))), tf)
    }
}

/// Handles an exception taken from the monitor's own code. A breakpoint is
/// stepped over and execution resumes; anything else is fatal and is returned
/// as `Err`, with the frame left as it was. A breakpoint on the last
/// instruction of the address space has no next instruction, and is fatal.
pub fn handle_exception(info: Info, esr: u32, tf: &mut TrapFrame) -> (r: Result<(), Fatal>)
    ensures
        (r, *final(tf)) == monitor_outcome(info.kind, esr, *old(tf)),
        r is Ok <==> is_monitor_breakpoint(info, esr) && can_step(old(tf).elr),
        r is Ok ==> final(tf).elr == old(tf).elr + INSTRUCTION_SIZE
            && final(tf).spsr == old(tf).spsr,
        r is Err ==> *final(tf) == *old(tf),
{
    match info.kind {
        Kind::Synchronous => match decode(esr) {
            Syndrome::Brk(b) => {
                if tf.elr > u64::MAX - INSTRUCTION_SIZE {
                    return Err(Fatal::Sync(Syndrome::Brk(b)));
                }
                tf.elr = tf.elr + INSTRUCTION_SIZE;
                Ok(())
            },
            other => Err(Fatal::Sync(other)),
        },
        kind => Err(Fatal::Async(kind)),
    }
}

/// Handling an exception from the monitor's own code is total and
/// deterministic: every input has exactly one outcome, it resumes only on a
/// breakpoint, and the outcome depends on the exception's kind, its syndrome
/// value and the frame alone, not on where it was taken from.
pub proof fn lemma_monitor_outcome_deterministic(
    a: Info,
    b: Info,
    esr_a: u32,
    esr_b: u32,
    tf_a: TrapFrame,
    tf_b: TrapFrame,
)
    ensures
        monitor_outcome(a.kind, esr_a, tf_a).0 is Ok ==> is_monitor_breakpoint(a, esr_a),
        a.kind == b.kind && esr_a == esr_b && tf_a == tf_b ==> monitor_outcome(a.kind, esr_a, tf_a)
            == monitor_outcome(b.kind, esr_b, tf_b),
{
}

/// Handles an exception taken from a realm. A hypervisor call gives
/// `HVC_DISPATCH`, for the command loop to serve; an interrupt or system error
/// gives `NO_ACTION`; any other synchronous exception is fatal and its
/// syndrome is returned as `Err`.
pub fn handle_lower_exception(info: Info, esr: u32) -> (r: Result<u64, Syndrome>)
    ensures
        info.kind == Kind::Synchronous && syndrome_of(esr) is HVC ==> r == Ok::<u64, Syndrome>(
            HVC_DISPATCH,
        ),
        info.kind == Kind::Synchronous && !(syndrome_of(esr) is HVC) ==> r == Err::<u64, Syndrome>(
            syndrome_of(esr),
        ),
        info.kind != Kind::Synchronous ==> r == Ok::<u64, Syndrome>(NO_ACTION),
{
    match info.kind {
        Kind::Synchronous => match decode(esr) {
            Syndrome::HVC => Ok(HVC_DISPATCH),
            other => Err(other),
        },
        _ => Ok(NO_ACTION),
    }
}

} // verus!
