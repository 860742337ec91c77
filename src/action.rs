//! Action kinds, their classification from names, and the effects that
//! carrying out an action consists of.
use vstd::prelude::*;

verus! {

/// What a binding does when it fires.
pub enum ActionKind {
    PowerOff,
    Reboot,
    Halt,
    SetOutputHigh,
    SetOutputLow,
    /// A name that is none of the known ones; carrying it out only reports it.
    Unrecognized(String),
}

/// The three calls to the system manager.
#[derive(PartialEq, Eq, Structural, Clone, Copy, Debug)]
pub enum PowerCall {
    PowerOff,
    Reboot,
    Halt,
}

/// One side effect, to be performed by the caller in the order given.
pub enum Effect {
    /// Flush the filesystem buffers.
    SyncFilesystem,
    /// Block the whole process for this many seconds.
    WaitSeconds(u64),
    /// A non-interactive call to the system manager.
    CallSystemManager(PowerCall),
    /// Drive the line, in output mode, to the level (0 or 1).
    SetLine { line: u32, level: u8 },
    /// Log, as an error, that the action name is unknown.
    ReportUnknown(String),
    /// Log a warning: an output line is bound to an action that is not a
    /// level, and the action is carried out at startup.
    WarnNotOutput { line: u32 },
}

/// Seconds between flushing the filesystem and a power call.
pub const GRACE_SECONDS: u64 = 2;

/// `k` is the kind that the action name `name` stands for.
pub open spec fn classifies(name: Seq<char>, k: ActionKind) -> bool {
    if name == "poweroff"@ || name == "shutdown"@ {
        k is PowerOff
    } else if name == "restart"@ {
        k is Reboot
    } else if name == "halt"@ {
        k is Halt
    } else if name == "seton"@ {
        k is SetOutputHigh
    } else if name == "setoff"@ {
        k is SetOutputLow
    } else {
        k is Unrecognized && k->Unrecognized_0@ == name
    }
}

pub open spec fn is_power_action(k: ActionKind) -> bool {
    k is PowerOff || k is Reboot || k is Halt
}

pub open spec fn power_call_of(k: ActionKind) -> PowerCall {
    match k {
        ActionKind::Reboot => PowerCall::Reboot,
        ActionKind::Halt => PowerCall::Halt,
        _ => PowerCall::PowerOff,
    }
}

/// `es` are the effects of carrying out `k` on `line`: for a power action a
/// flush, the grace wait, then the call; for a level, one request on the
/// line; for an unknown name, one report and nothing else.
pub open spec fn effects_of(k: ActionKind, line: u32, es: Seq<Effect>) -> bool {
    if is_power_action(k) {
        &&& es.len() == 3
        &&& es[0] is SyncFilesystem
        &&& es[1] == Effect::WaitSeconds(GRACE_SECONDS)
        &&& es[2] == Effect::CallSystemManager(power_call_of(k))
    } else if k is SetOutputHigh || k is SetOutputLow {
        &&& es.len() == 1
        &&& es[0] == (Effect::SetLine { line, level: if k is SetOutputHigh { 1u8 } else { 0u8 } })
    } else {
        &&& es.len() == 1
        &&& es[0] is ReportUnknown
        &&& es[0]->ReportUnknown_0@ == k->Unrecognized_0@
    }
}

fn literal(s: &str) -> (r: String)
    ensures
        r@ == s@,
{
    s.to_owned()
}

/// The kind that an action name stands for; names are matched exactly.
pub fn classify(name: &str) -> (r: ActionKind)
    ensures
        classifies(name@, r),
{
    let n = literal(name);
    if n == literal("poweroff") || n == literal("shutdown") {
        ActionKind::PowerOff
    } else if n == literal("restart") {
        ActionKind::Reboot
    } else if n == literal("halt") {
        ActionKind::Halt
    } else if n == literal("seton") {
        ActionKind::SetOutputHigh
    } else if n == literal("setoff") {
        ActionKind::SetOutputLow
    } else {
        ActionKind::Unrecognized(n)
    }
}

/// The effects of carrying out `kind` on `line`, in the order in which
/// they are to be performed.
pub fn action_effects(kind: &ActionKind, line: u32) -> (r: Vec<Effect>)
    ensures
        effects_of(*kind, line, r@),
{
    match kind {
        ActionKind::PowerOff => power_effects(PowerCall::PowerOff),
        ActionKind::Reboot => power_effects(PowerCall::Reboot),
        ActionKind::Halt => power_effects(PowerCall::Halt),
        ActionKind::SetOutputHigh => vec![Effect::SetLine { line, level: 1 }],
        ActionKind::SetOutputLow => vec![Effect::SetLine { line, level: 0 }],
        ActionKind::Unrecognized(name) => vec![Effect::ReportUnknown(name.clone())],
    }
}

fn power_effects(call: PowerCall) -> (r: Vec<Effect>)
    ensures
        r@.len() == 3,
        r@[0] is SyncFilesystem,
        r@[1] == Effect::WaitSeconds(GRACE_SECONDS),
        r@[2] == Effect::CallSystemManager(call),
{
    vec![Effect::SyncFilesystem, Effect::WaitSeconds(GRACE_SECONDS), Effect::CallSystemManager(call)]
}

/// The effects of the action named `input` on line `gpio`.
pub fn exec_binding(input: &str, gpio: u32) -> (r: Vec<Effect>)
    ensures
        exists|k: ActionKind| classifies(input@, k) && effects_of(k, gpio, r@),
{
    let kind = classify(input);
    action_effects(&kind, gpio)
}

} // verus!
