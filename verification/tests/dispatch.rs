use nvim_dispatch::handler::{EventKind, NeovimHandler, Routed, ShellStep};
use nvim_dispatch::handler::{classify, shell_steps};
use rmpv::Value;

fn plan(name: &str, args: Vec<Value>, on_os: bool) -> nvim_dispatch::handler::Plan {
    NeovimHandler().plan_notify(name.to_string(), args, on_os)
}

#[test]
fn redraw_forwards_arguments() {
    let a = Value::from("grid_line");
    let b = Value::from(7u64);
    let p = plan("redraw", vec![a.clone(), b.clone()], false);
    assert_eq!(p.trace_event, "redraw");
    match p.routed {
        Routed::Redraw(got) => assert_eq!(got, vec![a, b]),
        _ => panic!("redraw must route to the redraw decoder"),
    }
}

#[test]
fn redraw_forwards_empty_arguments() {
    let p = plan("redraw", vec![], true);
    match p.routed {
        Routed::Redraw(got) => assert_eq!(got, Vec::<Value>::new()),
        _ => panic!("redraw must route to the redraw decoder"),
    }
}

#[test]
fn setting_changed_forwards_map() {
    let entry = Value::Map(vec![
        (Value::from("key"), Value::from("x")),
        (Value::from("value"), Value::from(1u64)),
    ]);
    let p = plan("setting_changed", vec![entry.clone()], false);
    assert_eq!(p.trace_event, "setting_changed");
    match p.routed {
        Routed::SettingChanged(got) => assert_eq!(got, vec![entry]),
        _ => panic!("setting_changed must route to the settings store"),
    }
}

#[test]
fn register_right_click_stages_three_steps_in_order() {
    let p = plan("neovide.register_right_click", vec![], true);
    match p.routed {
        Routed::Shell(steps) => assert_eq!(
            steps,
            vec![
                ShellStep::UnregisterBeforeRegister,
                ShellStep::RegisterDirectory,
                ShellStep::RegisterFile,
            ]
        ),
        _ => panic!("register_right_click must route to the shell steps"),
    }
}

#[test]
fn unregister_right_click_stages_one_step() {
    let p = plan("neovide.unregister_right_click", vec![], true);
    match p.routed {
        Routed::Shell(steps) => assert_eq!(steps, vec![ShellStep::UnregisterOnly]),
        _ => panic!("unregister_right_click must route to the shell steps"),
    }
}

#[test]
fn off_platform_shell_branches_stage_nothing() {
    for name in ["neovide.register_right_click", "neovide.unregister_right_click"] {
        let p = plan(name, vec![], false);
        match p.routed {
            Routed::Shell(steps) => assert_eq!(steps, Vec::<ShellStep>::new()),
            _ => panic!("shell branches must still route to the shell executor"),
        }
    }
}

#[test]
fn unknown_event_is_ignored() {
    let p = plan("unknown.event", vec![Value::from(42u64)], true);
    assert_eq!(p.trace_event, "unknown.event");
    assert!(matches!(p.routed, Routed::Ignored));
}

#[test]
fn event_names_match_exactly() {
    for name in ["Redraw", "redraw ", " redraw", "", "neovide.register_right_click2"] {
        let p = plan(name, vec![], true);
        assert!(matches!(p.routed, Routed::Ignored), "{name:?} must be ignored");
    }
}

#[test]
fn classify_recognizes_the_four_names() {
    assert_eq!(classify(&"redraw".to_string()), EventKind::Redraw);
    assert_eq!(classify(&"setting_changed".to_string()), EventKind::SettingChanged);
    assert_eq!(
        classify(&"neovide.register_right_click".to_string()),
        EventKind::RegisterRightClick
    );
    assert_eq!(
        classify(&"neovide.unregister_right_click".to_string()),
        EventKind::UnregisterRightClick
    );
    assert_eq!(classify(&"redraw2".to_string()), EventKind::Unknown);
}

#[test]
fn shell_steps_off_platform_are_empty_for_every_kind() {
    for kind in [
        EventKind::Redraw,
        EventKind::SettingChanged,
        EventKind::RegisterRightClick,
        EventKind::UnregisterRightClick,
        EventKind::Unknown,
    ] {
        assert_eq!(shell_steps(kind, false), Vec::<ShellStep>::new());
    }
}

#[test]
fn handler_clone_is_equivalent() {
    let h = NeovimHandler();
    let c = h.clone();
    assert!(c == h);
}
