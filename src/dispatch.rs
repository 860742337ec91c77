//! Resolution of configured tables into bindings, and the round-robin
//! dispatcher that turns edge observations into effects.
use vstd::prelude::*;
use crate::action::{ActionKind, Effect, classify, classifies, effects_of, action_effects, is_power_action};
use crate::text::{parse_u32, parsed_u32};

verus! {

/// A line and the action bound to it.
pub struct Binding {
    pub line: u32,
    pub kind: ActionKind,
}

/// Why a table could not be resolved.
pub enum ConfigError {
    /// The key, after sanitising, is not a line number.
    ParseError { key: String },
}

/// What the subscription of the visited line produced.
#[derive(PartialEq, Eq, Structural, Clone, Copy, Debug)]
pub enum Observation {
    FallingEdge,
    RisingEdge,
    /// The subscription will never produce another edge.
    EndOfStream,
    /// The subscription failed; the failure ends the daemon.
    StreamError,
}

/// What to do after an observation.
pub enum Decision {
    /// Perform these effects in order, then visit the next line.
    Run(Vec<Effect>),
    /// Nothing to perform; visit the next line.
    Skip,
    /// Stop: the failure is fatal.
    Stop,
}

/// The entry `e` resolves to the binding `b`.
pub open spec fn resolves_to(e: (String, String), b: Binding) -> bool {
    parsed_u32(e.0@) == Some(b.line) && classifies(e.1@, b.kind)
}

/// Every key of `es` is a line number.
pub open spec fn all_keys_parse(es: Seq<(String, String)>) -> bool {
    forall|i: int| 0 <= i < es.len() ==> (#[trigger] parsed_u32(es[i].0@)) is Some
}

/// `key` is the first key of `es` that is not a line number.
pub open spec fn first_bad_key(es: Seq<(String, String)>, key: Seq<char>) -> bool {
    exists|i: int|
        0 <= i < es.len() && parsed_u32(#[trigger] es[i].0@) is None && es[i].0@ == key && (forall|
            j: int,
        |
            0 <= j < i ==> (#[trigger] parsed_u32(es[j].0@)) is Some)
}

/// Each entry of a sanitised table as a binding, in table order; fails on
/// the first key that is not a line number.
pub fn resolve_bindings(es: &Vec<(String, String)>) -> (r: Result<Vec<Binding>, ConfigError>)
    ensures
        r is Ok <==> all_keys_parse(es@),
        r matches Ok(bs) ==> bs@.len() == es@.len() && forall|i: int|
            0 <= i < es@.len() ==> resolves_to(#[trigger] es@[i], bs@[i]),
        r matches Err(ConfigError::ParseError { key }) ==> first_bad_key(es@, key@),
{
    let mut bs: Vec<Binding> = Vec::new();
    let mut i: usize = 0;
    while i < es.len()
        invariant
            i <= es@.len(),
            bs@.len() == i,
            forall|k: int| 0 <= k < i ==> resolves_to(#[trigger] es@[k], bs@[k]),
            forall|k: int| 0 <= k < i ==> (#[trigger] parsed_u32(es@[k].0@)) is Some,
        decreases es@.len() - i,
    {
        match parse_u32(es[i].0.as_str()) {
            Some(line) => {
                let kind = classify(es[i].1.as_str());
                bs.push(Binding { line, kind });
            },
            None => {
                let key = es[i].0.clone();
                assert(parsed_u32(es@[i as int].0@) is None);
                return Err(ConfigError::ParseError { key });
            },
        }
        i += 1;
    }
    Ok(bs)
}

/// `es` are the effects of an output binding at startup: a level is
/// driven at once; any other action is flagged with a warning and then
/// carried out all the same.
pub open spec fn startup_effects_of(k: ActionKind, line: u32, es: Seq<Effect>) -> bool {
    if k is SetOutputHigh || k is SetOutputLow {
        effects_of(k, line, es)
    } else {
        &&& es.len() >= 1
        &&& es[0] == Effect::WarnNotOutput { line }
        &&& effects_of(k, line, es.drop_first())
    }
}

/// The effects of an output binding, performed once at startup.
pub fn output_effects(b: &Binding) -> (r: Vec<Effect>)
    ensures
        startup_effects_of(b.kind, b.line, r@),
{
    let es = action_effects(&b.kind, b.line);
    match b.kind {
        ActionKind::SetOutputHigh | ActionKind::SetOutputLow => es,
        _ => {
            let mut r = vec![Effect::WarnNotOutput { line: b.line }];
            let ghost tail = es@;
            let mut es = es;
            r.append(&mut es);
            assert(r@.drop_first() =~= tail);
            r
        },
    }
}

/// The position visited after `c` among `n` lines, wrapping to the first.
pub open spec fn next_cursor(c: nat, n: nat) -> nat {
    if c + 1 >= n {
        0
    } else {
        c + 1
    }
}

/// Observing `obs` on line `c` of `bs` gives the decision `r` and moves the
/// visitor to `c2`: a falling edge runs the effects of that line's action, a
/// rising edge or the end of the stream runs nothing, and in all three cases
/// the next line is visited; a failure stops where it is.
pub open spec fn observed(bs: Seq<Binding>, c: nat, obs: Observation, r: Decision, c2: nat) -> bool {
    if obs is StreamError {
        r is Stop && c2 == c
    } else if bs.len() == 0 {
        r is Skip && c2 == c
    } else {
        &&& c2 == next_cursor(c, bs.len())
        &&& if obs is FallingEdge {
            r is Run && effects_of(bs[c as int].kind, bs[c as int].line, r->Run_0@)
        } else {
            r is Skip
        }
    }
}

/// Visits the input bindings one after another, in table order, waiting on
/// each in turn: a line that stays quiet holds back every line after it.
pub struct Dispatcher {
    bindings: Vec<Binding>,
    cursor: usize,
}

impl Dispatcher {
    pub closed spec fn bindings(&self) -> Seq<Binding> {
        self.bindings@
    }

    pub closed spec fn cursor(&self) -> nat {
        self.cursor as nat
    }

    /// The cursor stands on a binding, or at 0 when there is none.
    pub closed spec fn wf(&self) -> bool {
        if self.bindings@.len() == 0 {
            self.cursor == 0
        } else {
            self.cursor < self.bindings@.len()
        }
    }

    /// A dispatcher that visits `bindings` from the first.
    pub fn new(bindings: Vec<Binding>) -> (r: Dispatcher)
        ensures
            r.wf(),
            r.bindings() == bindings@,
            r.cursor() == 0,
    {
        Dispatcher { bindings, cursor: 0 }
    }

    /// The position of the line to wait on next, if there is any line.
    pub fn current(&self) -> (r: Option<usize>)
        requires
            self.wf(),
        ensures
            r == (if self.bindings().len() == 0 {
                None
            } else {
                Some(self.cursor() as usize)
            }),
    {
        if self.bindings.len() == 0 {
            None
        } else {
            Some(self.cursor)
        }
    }

    /// The line number of the line to wait on next, if there is any line.
    pub fn current_line(&self) -> (r: Option<u32>)
        requires
            self.wf(),
        ensures
            r == (if self.bindings().len() == 0 {
                None
            } else {
                Some(self.bindings()[self.cursor() as int].line)
            }),
    {
        if self.bindings.len() == 0 {
            None
        } else {
            Some(self.bindings[self.cursor].line)
        }
    }

    /// The number of bindings visited.
    pub fn len(&self) -> (r: usize)
        ensures
            r == self.bindings().len(),
    {
        self.bindings.len()
    }

    /// Takes what the subscription of the current line produced, and says
    /// what to do.
    pub fn observe(&mut self, obs: Observation) -> (r: Decision)
        requires
            old(self).wf(),
        ensures
            final(self).wf(),
            final(self).bindings() == old(self).bindings(),
            observed(old(self).bindings(), old(self).cursor(), obs, r, final(self).cursor()),
    {
        if obs == Observation::StreamError {
            return Decision::Stop;
        }
        let n = self.bindings.len();
        if n == 0 {
            return Decision::Skip;
        }
        let c = self.cursor;
        let r = if obs == Observation::FallingEdge {
            Decision::Run(action_effects(&self.bindings[c].kind, self.bindings[c].line))
        } else {
            Decision::Skip
        };
        self.cursor = if c + 1 >= n {
            0
        } else {
            c + 1
        };
        r
    }
}

/// The visitor runs only the action of the line that it waits on, and moves
/// one line on for each observation that is not a failure: a later line's
/// edges are never acted on while an earlier line stays silent.
pub proof fn dispatch_is_round_robin(
    bs: Seq<Binding>,
    c: nat,
    obs: Observation,
    r: Decision,
    c2: nat,
)
    requires
        c < bs.len(),
        observed(bs, c, obs, r, c2),
    ensures
        r is Run ==> obs is FallingEdge && effects_of(bs[c as int].kind, bs[c as int].line, r->Run_0@),
        !(obs is StreamError) ==> c2 == (c + 1) % bs.len(),
        obs is StreamError ==> r is Stop && c2 == c,
{
    let n = bs.len();
    if c + 1 < n {
        assert((c + 1) % n == c + 1) by (nonlinear_arith)
            requires
                c + 1 < n,
        ;
    } else {
        assert((c + 1) % n == 0) by (nonlinear_arith)
            requires
                c + 1 == n,
        ;
    }
}

/// A falling edge on a line bound to an unknown action name reports the
/// name and does nothing else; the visitor goes on to the next line.
pub proof fn unrecognized_action_reports_and_continues(
    bs: Seq<Binding>,
    c: nat,
    r: Decision,
    c2: nat,
)
    requires
        c < bs.len(),
        bs[c as int].kind is Unrecognized,
        observed(bs, c, Observation::FallingEdge, r, c2),
    ensures
        r is Run,
        r->Run_0@.len() == 1,
        r->Run_0@[0] matches Effect::ReportUnknown(name) && name@ == bs[c as int].kind->Unrecognized_0@,
        c2 == next_cursor(c, bs.len()),
        !(r is Stop),
{
}

/// A power action flushes the filesystem, then waits the grace period, and
/// only then calls the system manager.
pub proof fn power_action_syncs_then_waits(k: ActionKind, line: u32, es: Seq<Effect>)
    requires
        is_power_action(k),
        effects_of(k, line, es),
    ensures
        es.len() == 3,
        es[0] is SyncFilesystem,
        es[1] == Effect::WaitSeconds(crate::action::GRACE_SECONDS),
        crate::action::GRACE_SECONDS == 2,
        es[2] is CallSystemManager,
{
}

} // verus!
