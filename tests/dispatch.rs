use radio_gpio::action::{ActionKind, Effect, PowerCall};
use radio_gpio::dispatch::{
    output_effects, resolve_bindings, Binding, ConfigError, Decision, Dispatcher, Observation,
};

fn table(entries: &[(&str, &str)]) -> Vec<(String, String)> {
    entries.iter().map(|(k, v)| (k.to_string(), v.to_string())).collect()
}

fn run(d: Decision) -> Vec<Effect> {
    match d {
        Decision::Run(es) => es,
        Decision::Skip => panic!("expected effects, got a skip"),
        Decision::Stop => panic!("expected effects, got a stop"),
    }
}

#[test]
fn resolve_parses_lines_and_classifies() {
    let bs = match resolve_bindings(&table(&[("17", "setoff"), ("+4", "restart"), ("9", "dance")])) {
        Ok(bs) => bs,
        Err(_) => panic!("all keys are numbers"),
    };
    assert_eq!(bs.len(), 3);
    assert_eq!(bs[0].line, 17);
    assert!(matches!(bs[0].kind, ActionKind::SetOutputLow));
    assert_eq!(bs[1].line, 4);
    assert!(matches!(bs[1].kind, ActionKind::Reboot));
    assert_eq!(bs[2].line, 9);
    assert!(matches!(&bs[2].kind, ActionKind::Unrecognized(n) if n == "dance"));
}

#[test]
fn resolve_reports_first_bad_key() {
    match resolve_bindings(&table(&[("3", "halt"), ("GPIO7", "seton"), ("x", "seton")])) {
        Err(ConfigError::ParseError { key }) => assert_eq!(key, "GPIO7"),
        Ok(_) => panic!("GPIO7 is not a line number"),
    }
}

#[test]
fn resolve_rejects_negative_and_overflowing_lines() {
    assert!(resolve_bindings(&table(&[("-1", "halt")])).is_err());
    assert!(resolve_bindings(&table(&[("4294967296", "halt")])).is_err());
    assert!(resolve_bindings(&table(&[("", "halt")])).is_err());
    assert!(resolve_bindings(&table(&[("4294967295", "halt")])).is_ok());
}

#[test]
fn falling_edge_on_setoff_requests_level_zero_once() {
    let bs = match resolve_bindings(&table(&[("17", "setoff")])) {
        Ok(bs) => bs,
        Err(_) => panic!("17 is a line number"),
    };
    let mut d = Dispatcher::new(bs);
    assert_eq!(d.current_line(), Some(17));
    let es = run(d.observe(Observation::FallingEdge));
    assert_eq!(es.len(), 1);
    assert!(matches!(es[0], Effect::SetLine { line: 17, level: 0 }));
    assert!(matches!(d.observe(Observation::RisingEdge), Decision::Skip));
}

#[test]
fn quiet_first_line_holds_back_the_second() {
    let bs = vec![
        Binding { line: 5, kind: ActionKind::SetOutputHigh },
        Binding { line: 6, kind: ActionKind::SetOutputLow },
    ];
    let mut d = Dispatcher::new(bs);
    // Line 6 has an edge ready, but the visitor waits on line 5, which never
    // produces one: nothing is dispatched.
    assert_eq!(d.current_line(), Some(5));
    assert_eq!(d.current_line(), Some(5));
    // Only once line 5 produces something does line 6 get its turn.
    assert!(matches!(d.observe(Observation::RisingEdge), Decision::Skip));
    assert_eq!(d.current_line(), Some(6));
    let es = run(d.observe(Observation::FallingEdge));
    assert!(matches!(es[0], Effect::SetLine { line: 6, level: 0 }));
    assert_eq!(d.current_line(), Some(5));
}

#[test]
fn unrecognized_action_reports_and_loop_continues() {
    let bs = vec![
        Binding { line: 2, kind: ActionKind::Unrecognized("blink".to_string()) },
        Binding { line: 3, kind: ActionKind::SetOutputHigh },
    ];
    let mut d = Dispatcher::new(bs);
    let es = run(d.observe(Observation::FallingEdge));
    assert_eq!(es.len(), 1);
    assert!(matches!(&es[0], Effect::ReportUnknown(n) if n == "blink"));
    assert_eq!(d.current_line(), Some(3));
    let es = run(d.observe(Observation::FallingEdge));
    assert!(matches!(es[0], Effect::SetLine { line: 3, level: 1 }));
}

#[test]
fn end_of_stream_is_revisited_without_stopping() {
    let bs = vec![Binding { line: 8, kind: ActionKind::Halt }];
    let mut d = Dispatcher::new(bs);
    assert!(matches!(d.observe(Observation::EndOfStream), Decision::Skip));
    assert_eq!(d.current_line(), Some(8));
    assert!(matches!(d.observe(Observation::EndOfStream), Decision::Skip));
    assert_eq!(d.current_line(), Some(8));
}

#[test]
fn stream_error_stops_in_place() {
    let bs = vec![
        Binding { line: 1, kind: ActionKind::Halt },
        Binding { line: 2, kind: ActionKind::Halt },
    ];
    let mut d = Dispatcher::new(bs);
    assert!(matches!(d.observe(Observation::StreamError), Decision::Stop));
    assert_eq!(d.current(), Some(0));
}

#[test]
fn no_bindings_means_nothing_to_wait_on() {
    let mut d = Dispatcher::new(Vec::new());
    assert_eq!(d.current(), None);
    assert_eq!(d.current_line(), None);
    assert_eq!(d.len(), 0);
    assert!(matches!(d.observe(Observation::FallingEdge), Decision::Skip));
}

#[test]
fn poweroff_on_falling_edge_syncs_waits_then_calls() {
    let bs = vec![Binding { line: 3, kind: ActionKind::PowerOff }];
    let mut d = Dispatcher::new(bs);
    let es = run(d.observe(Observation::FallingEdge));
    assert_eq!(es.len(), 3);
    assert!(matches!(es[0], Effect::SyncFilesystem));
    assert!(matches!(es[1], Effect::WaitSeconds(2)));
    assert!(matches!(es[2], Effect::CallSystemManager(PowerCall::PowerOff)));
}

#[test]
fn output_level_binding_drives_line_without_warning() {
    let es = output_effects(&Binding { line: 22, kind: ActionKind::SetOutputHigh });
    assert_eq!(es.len(), 1);
    assert!(matches!(es[0], Effect::SetLine { line: 22, level: 1 }));
}

#[test]
fn output_power_binding_is_flagged_then_carried_out() {
    let es = output_effects(&Binding { line: 4, kind: ActionKind::Reboot });
    assert_eq!(es.len(), 4);
    assert!(matches!(es[0], Effect::WarnNotOutput { line: 4 }));
    assert!(matches!(es[1], Effect::SyncFilesystem));
    assert!(matches!(es[2], Effect::WaitSeconds(2)));
    assert!(matches!(es[3], Effect::CallSystemManager(PowerCall::Reboot)));
}
