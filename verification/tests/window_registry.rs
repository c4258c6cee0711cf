use desk_core::window::{
    auth_window_spec, main_window_spec, Demand, WindowAction, WindowError, WindowHandle, WindowOp,
    WindowRegistry, WindowState,
};

#[test]
fn a_new_registry_is_empty() {
    let registry = WindowRegistry::new();
    assert!(!registry.is_live("main"));
    assert!(!registry.is_live("auth"));
    assert_eq!(registry.state_of("main"), None);
    assert_eq!(registry.handle_of("main"), None);
    assert!(registry.has_room());
}

#[test]
fn open_or_reuse_called_twice_gives_the_same_window() {
    let mut registry = WindowRegistry::new();
    let first = registry.open_or_reuse("main", &main_window_spec());
    let second = registry.open_or_reuse("main", &auth_window_spec());
    assert_eq!(first, second);
    assert_eq!(first, WindowHandle { id: 0 });
    assert_eq!(
        registry.state_of("main"),
        Some(WindowState { handle: first, visible: false, focused: false, minimized: false })
    );
    let other = registry.open_or_reuse("tools", &auth_window_spec());
    assert_ne!(other, first);
    assert_eq!(registry.handle_of("main"), Some(first));
    assert_eq!(
        registry.state_of("tools"),
        Some(WindowState { handle: other, visible: true, focused: false, minimized: false })
    );
}

#[test]
fn open_fresh_replaces_the_window_under_the_label() {
    let mut registry = WindowRegistry::new();
    let first = registry.open_fresh("auth", &auth_window_spec());
    registry.show("auth").unwrap();
    registry.focus("auth").unwrap();
    let second = registry.open_fresh("auth", &auth_window_spec());
    assert_ne!(first, second);
    assert_eq!(registry.handle_of("auth"), Some(second));
    assert_eq!(
        registry.state_of("auth"),
        Some(WindowState { handle: second, visible: true, focused: false, minimized: false })
    );
}

#[test]
fn show_and_focus_need_a_live_window() {
    let mut registry = WindowRegistry::new();
    assert_eq!(registry.show("main"), Err(WindowError::NotFound { label: "main".to_string() }));
    assert_eq!(registry.focus("main"), Err(WindowError::NotFound { label: "main".to_string() }));
    assert!(!registry.is_live("main"));
    registry.open_or_reuse("main", &main_window_spec());
    assert_eq!(registry.show("main"), Ok(()));
    assert!(registry.state_of("main").unwrap().visible);
    assert!(!registry.state_of("main").unwrap().focused);
    assert_eq!(registry.focus("main"), Ok(()));
    assert!(registry.state_of("main").unwrap().focused);
}

#[test]
fn at_most_one_window_has_the_focus() {
    let mut registry = WindowRegistry::new();
    registry.open_or_reuse("a", &main_window_spec());
    registry.open_or_reuse("b", &main_window_spec());
    registry.open_or_reuse("c", &main_window_spec());
    registry.focus("a").unwrap();
    assert!(registry.state_of("a").unwrap().focused);
    registry.focus("c").unwrap();
    assert!(!registry.state_of("a").unwrap().focused);
    assert!(!registry.state_of("b").unwrap().focused);
    assert!(registry.state_of("c").unwrap().focused);
}

#[test]
fn close_and_minimize_tolerate_an_absent_window() {
    let mut registry = WindowRegistry::new();
    assert!(!registry.close("ghost"));
    assert!(!registry.minimize("ghost"));
    registry.open_or_reuse("main", &main_window_spec());
    assert!(!registry.close("ghost"));
    assert!(registry.is_live("main"));
}

#[test]
fn minimize_keeps_the_window_registered() {
    let mut registry = WindowRegistry::new();
    let handle = registry.open_or_reuse("main", &main_window_spec());
    assert!(registry.minimize("main"));
    assert_eq!(
        registry.state_of("main"),
        Some(WindowState { handle, visible: false, focused: false, minimized: true })
    );
}

#[test]
fn close_removes_only_the_named_window() {
    let mut registry = WindowRegistry::new();
    let a = registry.open_or_reuse("a", &main_window_spec());
    let b = registry.open_or_reuse("b", &main_window_spec());
    let c = registry.open_or_reuse("c", &main_window_spec());
    assert!(registry.close("b"));
    assert!(!registry.is_live("b"));
    assert_eq!(registry.handle_of("a"), Some(a));
    assert_eq!(registry.handle_of("c"), Some(c));
    assert!(registry.close("a"));
    assert_eq!(registry.handle_of("c"), Some(c));
    let again = registry.open_or_reuse("b", &main_window_spec());
    assert_ne!(again, b);
    assert_ne!(again, a);
    assert_ne!(again, c);
}

#[test]
fn window_errors_are_worded() {
    assert_eq!(
        WindowError::NotFound { label: "main".to_string() }.to_string(),
        "window not found: main"
    );
    assert_eq!(
        WindowError::OperationFailed { label: "main".to_string(), cause: "no display".to_string() }
            .to_string(),
        "no display"
    );
}

#[test]
fn observe_registers_and_forgets() {
    let mut registry = WindowRegistry::new();
    registry.observe("auth", Some(true));
    assert_eq!(
        registry.state_of("auth"),
        Some(WindowState { handle: WindowHandle { id: 0 }, visible: true, focused: false, minimized: false })
    );
    registry.focus("auth").unwrap();
    registry.observe("auth", Some(false));
    assert_eq!(
        registry.state_of("auth"),
        Some(WindowState { handle: WindowHandle { id: 0 }, visible: true, focused: true, minimized: false })
    );
    registry.observe("auth", None);
    assert_eq!(registry.state_of("auth"), None);
    registry.observe("ghost", None);
    assert!(!registry.is_live("ghost"));
}

#[test]
fn what_each_operation_asks_for() {
    let mut registry = WindowRegistry::new();
    let open = WindowOp::OpenOrReuse { label: "main".to_string(), spec: main_window_spec() };
    let fresh = WindowOp::OpenFresh { label: "main".to_string(), spec: auth_window_spec() };
    let show = WindowOp::Show { label: "main".to_string() };
    let focus = WindowOp::Focus { label: "main".to_string() };
    let close = WindowOp::Close { label: "main".to_string() };
    let minimize = WindowOp::Minimize { label: "main".to_string() };
    assert_eq!(open.label(), "main");
    let absent = WindowError::NotFound { label: "main".to_string() };
    assert_eq!(
        open.demand(&registry),
        Demand::Call(WindowAction::Create { label: "main".to_string(), spec: main_window_spec() })
    );
    assert_eq!(
        fresh.demand(&registry),
        Demand::Call(WindowAction::Create { label: "main".to_string(), spec: auth_window_spec() })
    );
    assert_eq!(show.demand(&registry), Demand::Refuse(absent.clone()));
    assert_eq!(focus.demand(&registry), Demand::Refuse(absent));
    assert_eq!(close.demand(&registry), Demand::Nothing);
    assert_eq!(minimize.demand(&registry), Demand::Nothing);

    open.apply(&mut registry);
    let handle = registry.handle_of("main").unwrap();
    assert_eq!(open.demand(&registry), Demand::Nothing);
    assert_eq!(
        fresh.demand(&registry),
        Demand::Call(WindowAction::Create { label: "main".to_string(), spec: auth_window_spec() })
    );
    assert_eq!(show.demand(&registry), Demand::Call(WindowAction::Show { label: "main".to_string() }));
    assert_eq!(focus.demand(&registry), Demand::Call(WindowAction::Focus { label: "main".to_string() }));
    assert_eq!(close.demand(&registry), Demand::Call(WindowAction::Close { label: "main".to_string() }));
    assert_eq!(
        minimize.demand(&registry),
        Demand::Call(WindowAction::Minimize { label: "main".to_string() })
    );

    show.apply(&mut registry);
    focus.apply(&mut registry);
    minimize.apply(&mut registry);
    assert_eq!(
        registry.state_of("main"),
        Some(WindowState { handle, visible: true, focused: true, minimized: true })
    );
    fresh.apply(&mut registry);
    assert_ne!(registry.handle_of("main"), Some(handle));
    close.apply(&mut registry);
    assert!(!registry.is_live("main"));
}
