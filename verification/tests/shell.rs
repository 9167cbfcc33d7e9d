use menu_shell::boot::{BootPhase, BootState, StepResult};
use menu_shell::bridge::{BridgeError, CommandBridge};
use menu_shell::bridge::greet;
use menu_shell::devtools::{selftest_ops, PanelOp};
use menu_shell::dispatch::{action_id, action_label, parse_action, Dispatcher};
use menu_shell::dispatch::{DispatchState, HandlerChoice, MenuAction};
use menu_shell::logsel::{select, LogTargets, SinkKind};
use menu_shell::menu::{custom_tree, os_default_tree, MenuNode, MenuTree};
use menu_shell::profile::BuildProfile;

#[test]
fn greet_ada() {
    assert_eq!(greet("Ada"), "Hello, Ada! You've been greeted from Rust!");
}

#[test]
fn greet_is_idempotent() {
    let first = greet("Ada");
    let second = greet("Ada");
    assert_eq!(first, second);
    assert!(first.contains("Ada"));
}

#[test]
fn greet_empty_name() {
    assert_eq!(greet(""), "Hello, ! You've been greeted from Rust!");
}

#[test]
fn bridge_invoke_greet() {
    let mut bridge = CommandBridge::new();
    bridge.register_greet();
    let out = bridge.invoke("greet", "Ada").unwrap();
    assert_eq!(out.value, "Hello, Ada! You've been greeted from Rust!");
    assert_eq!(out.log, "The name param is Ada");
}

#[test]
fn bridge_unknown_command_is_reported() {
    let mut bridge = CommandBridge::new();
    bridge.register_greet();
    let err = bridge.invoke("no-such-command", "Ada").unwrap_err();
    assert_eq!(err, BridgeError::UnknownCommand);
    assert_eq!(err.message(), "unknown command");
}

#[test]
fn bridge_rejects_unregistered_command() {
    let bridge = CommandBridge::new();
    assert_eq!(bridge.invoke("greet", "Ada").unwrap_err(), BridgeError::UnknownCommand);
}

#[test]
fn select_debug_targets() {
    let t = select(BuildProfile::Debug);
    assert_eq!(t, LogTargets { stdout: true, webview_console: true, log_dir: false });
    assert!(t.contains(SinkKind::Stdout));
    assert!(t.contains(SinkKind::WebviewConsole));
    assert!(!t.contains(SinkKind::LogDir));
}

#[test]
fn select_release_targets() {
    let t = select(BuildProfile::Release);
    assert_eq!(t, LogTargets { stdout: true, webview_console: false, log_dir: true });
    assert!(t.contains(SinkKind::Stdout));
    assert!(!t.contains(SinkKind::WebviewConsole));
    assert!(t.contains(SinkKind::LogDir));
}

#[test]
fn dispatch_fileopen_end_to_end() {
    let tree = custom_tree();
    assert!(tree.check_unique());
    let mut d = Dispatcher::new();
    let out = d.dispatch("fileopen");
    assert_eq!(out.handler, HandlerChoice::Known(MenuAction::FileOpen));
    assert!(out.log.contains("File_Open"));
    assert!(out.log.contains("fileopen"));
    assert_eq!(d.state, DispatchState::Idle);
}

#[test]
fn dispatch_unknown_identifier() {
    let mut d = Dispatcher::new();
    let out = d.dispatch("zzz-unknown");
    assert_eq!(out.handler, HandlerChoice::Fallback);
    assert_eq!(out.log, "not implemented: unrecognized menu id: zzz-unknown");
    assert_eq!(d.state, DispatchState::Idle);
}

#[test]
fn dispatch_each_known_identifier() {
    let cases = [
        ("projectnew", MenuAction::ProjectNew),
        ("projectopen", MenuAction::ProjectOpen),
        ("fileopen", MenuAction::FileOpen),
        ("filesave", MenuAction::FileSave),
        ("filesaveas", MenuAction::FileSaveAs),
        ("undo", MenuAction::Undo),
        ("redo", MenuAction::Redo),
    ];
    let mut d = Dispatcher::new();
    for (id, action) in cases {
        assert_eq!(parse_action(id), Some(action));
        assert_eq!(action_id(action), id);
        let out = d.dispatch(id);
        assert_eq!(out.handler, HandlerChoice::Known(action));
        assert!(out.log.contains(action_label(action)));
        assert!(out.log.contains(id));
        assert_eq!(d.state, DispatchState::Idle);
    }
}

#[test]
fn custom_tree_identifiers_in_order() {
    let tree = custom_tree();
    let ids = tree.collect_ids();
    assert_eq!(
        ids,
        vec![
            "projectnew".to_string(),
            "projectopen".to_string(),
            "fileopen".to_string(),
            "filesave".to_string(),
            "filesaveas".to_string(),
            "undo".to_string(),
            "redo".to_string(),
        ]
    );
    assert!(tree.check_unique());
}

#[test]
fn duplicate_identifiers_are_detected() {
    let child = MenuNode::Item {
        id: "fileopen".to_string(),
        label: "Open".to_string(),
        accelerator: None,
    };
    let twin = MenuNode::Item {
        id: "fileopen".to_string(),
        label: "Open Again".to_string(),
        accelerator: None,
    };
    let sub = MenuNode::Submenu { label: "More".to_string(), children: vec![twin] };
    let tree = MenuTree { top: vec![child, sub] };
    assert!(!tree.check_unique());
}

#[test]
fn os_default_tree_is_templated_with_app_name() {
    let tree = os_default_tree("MyApp");
    assert!(tree.check_unique());
    assert!(tree.collect_ids().is_empty());
    assert_eq!(tree.top.len(), 2);
    match &tree.top[0] {
        MenuNode::Submenu { label, .. } => assert_eq!(label.as_str(), "MyApp"),
        _ => panic!("expected a submenu"),
    }
    match &tree.top[1] {
        MenuNode::Submenu { label, .. } => assert_eq!(label.as_str(), "Edit"),
        _ => panic!("expected a submenu"),
    }
}

#[test]
fn selftest_plan_by_profile() {
    assert_eq!(
        selftest_ops(BuildProfile::Debug),
        vec![PanelOp::OpenPanel, PanelOp::ClosePanel]
    );
    assert_eq!(selftest_ops(BuildProfile::Release), vec![]);
}

#[test]
fn boot_order_debug() {
    let mut s = BootState::start(BuildProfile::Debug);
    assert_eq!(s.phase, BootPhase::SelectLogTargets);
    s.advance(StepResult::Succeeded);
    assert_eq!(s.phase, BootPhase::BuildMenu);
    s.advance(StepResult::Succeeded);
    assert_eq!(s.phase, BootPhase::RegisterCommands);
    s.advance(StepResult::Succeeded);
    assert_eq!(s.phase, BootPhase::DevtoolsSelfTest);
    s.advance(StepResult::Succeeded);
    assert_eq!(s.phase, BootPhase::AttachMenu);
    s.advance(StepResult::Succeeded);
    assert_eq!(s.phase, BootPhase::StartEventLoop);
    s.advance(StepResult::Succeeded);
    assert_eq!(s.phase, BootPhase::Running);
    s.advance(StepResult::Failed);
    assert_eq!(s.phase, BootPhase::Running);
}

#[test]
fn boot_order_release_skips_selftest() {
    let mut s = BootState::start(BuildProfile::Release);
    s.advance(StepResult::Succeeded);
    s.advance(StepResult::Succeeded);
    s.advance(StepResult::Succeeded);
    assert_eq!(s.phase, BootPhase::AttachMenu);
}

#[test]
fn boot_failure_aborts_for_good() {
    let mut s = BootState::start(BuildProfile::Debug);
    s.advance(StepResult::Succeeded);
    assert_eq!(s.phase, BootPhase::BuildMenu);
    s.advance(StepResult::Failed);
    assert_eq!(s.phase, BootPhase::Aborted);
    s.advance(StepResult::Succeeded);
    assert_eq!(s.phase, BootPhase::Aborted);
}

#[test]
fn deep_nesting_uniqueness() {
    let leaf_dup = MenuNode::Item {
        id: "deep".to_string(),
        label: "Deep".to_string(),
        accelerator: None,
    };
    let inner = MenuNode::Submenu { label: "Inner".to_string(), children: vec![leaf_dup] };
    let middle = MenuNode::Submenu { label: "Middle".to_string(), children: vec![inner] };
    let other = MenuNode::Item {
        id: "deep".to_string(),
        label: "Deep Twin".to_string(),
        accelerator: None,
    };
    let tree = MenuTree { top: vec![middle, other] };
    assert_eq!(tree.collect_ids(), vec!["deep".to_string(), "deep".to_string()]);
    assert!(!tree.check_unique());

    let leaf = MenuNode::Item {
        id: "deep".to_string(),
        label: "Deep".to_string(),
        accelerator: Some("Ctrl+D".to_string()),
    };
    let inner2 = MenuNode::Submenu { label: "Inner".to_string(), children: vec![leaf] };
    let middle2 = MenuNode::Submenu { label: "Middle".to_string(), children: vec![inner2] };
    let shallow = MenuNode::Item {
        id: "shallow".to_string(),
        label: "Shallow".to_string(),
        accelerator: None,
    };
    let ok_tree = MenuTree { top: vec![middle2, shallow] };
    assert_eq!(ok_tree.collect_ids(), vec!["deep".to_string(), "shallow".to_string()]);
    assert!(ok_tree.check_unique());
}
