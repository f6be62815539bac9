use mintshot::hotkey::{
    display_wait_error, grab_outcome, hotkey_modifiers, install_candidates, is_hotkey_press,
    join_dir, poll_decision, press_action, spawn_capture, wait_decision, ExecutableSearch, GrabOutcome,
    HotkeyError, PollDecision, PollOutcome, PressAction, SearchAction, SearchEvent, SpawnAction, SpawnEvent,
    SpawnStage, WaitDecision, WaitLog,
};

#[test]
fn grabbed_modifier_combinations() {
    assert_eq!(hotkey_modifiers(), [5, 5 | 0x10, 5 | 0x02, 5 | 0x12]);
}

#[test]
fn hotkey_press_ignores_lock_and_button_bits() {
    assert!(is_hotkey_press(39, 5, 39));
    assert!(is_hotkey_press(39, 5 | 0x10, 39)); // Num Lock
    assert!(is_hotkey_press(39, 5 | 0x02, 39)); // Caps Lock
    assert!(is_hotkey_press(39, 5 | 0x80 | 0x100, 39)); // Level 3, button 1
    assert!(!is_hotkey_press(39, 5 | 0x40, 39)); // Super
    assert!(!is_hotkey_press(39, 5 | 0x08, 39)); // Alt
    assert!(!is_hotkey_press(39, 4, 39)); // Ctrl only
    assert!(!is_hotkey_press(40, 5, 39)); // another key
}

#[test]
fn grab_outcomes() {
    assert_eq!(grab_outcome(0, 4), GrabOutcome::AllGranted);
    assert_eq!(grab_outcome(2, 4), GrabOutcome::Partial);
    assert_eq!(grab_outcome(4, 4), GrabOutcome::Conflict);
    assert_eq!(grab_outcome(6, 4), GrabOutcome::Conflict);
}

#[test]
fn poll_outcomes() {
    assert_eq!(poll_decision(PollOutcome::Timeout), PollDecision::Continue);
    assert_eq!(poll_decision(PollOutcome::Interrupted), PollDecision::Continue);
    assert_eq!(poll_decision(PollOutcome::Ready { hangup: false }), PollDecision::DrainEvents);
    assert_eq!(poll_decision(PollOutcome::Ready { hangup: true }), PollDecision::Exit);
    assert_eq!(poll_decision(PollOutcome::Failed), PollDecision::Exit);
}

#[test]
fn hotkey_error_messages() {
    assert_eq!(HotkeyError::Conflict.message(), "hotkey already in use by another application");
    assert_eq!(HotkeyError::Other("boom".to_string()).message(), "boom");
}

#[test]
fn spawn_uses_the_cached_path_first() {
    let cached = Some("/a/mintshot".to_string());
    let mut stage = SpawnStage::Start;
    match spawn_capture(&mut stage, &cached, SpawnEvent::Begin) {
        SpawnAction::Spawn(p) => assert_eq!(p, "/a/mintshot"),
        other => panic!("unexpected {:?}", other),
    }
    match spawn_capture(&mut stage, &cached, SpawnEvent::Spawned { ok: true }) {
        SpawnAction::Done { cache: Some(p), release_guard: false } => assert_eq!(p, "/a/mintshot"),
        other => panic!("unexpected {:?}", other),
    }
}

#[test]
fn spawn_looks_the_path_up_again_after_a_failure() {
    let cached = Some("/old/mintshot".to_string());
    let mut stage = SpawnStage::Start;
    spawn_capture(&mut stage, &cached, SpawnEvent::Begin);
    assert!(matches!(
        spawn_capture(&mut stage, &cached, SpawnEvent::Spawned { ok: false }),
        SpawnAction::Resolve
    ));
    match spawn_capture(
        &mut stage,
        &cached,
        SpawnEvent::Resolved { path: Some("/new/mintshot".to_string()) },
    ) {
        SpawnAction::Spawn(p) => assert_eq!(p, "/new/mintshot"),
        other => panic!("unexpected {:?}", other),
    }
    match spawn_capture(&mut stage, &cached, SpawnEvent::Spawned { ok: true }) {
        SpawnAction::Done { cache: Some(p), release_guard: false } => assert_eq!(p, "/new/mintshot"),
        other => panic!("unexpected {:?}", other),
    }
}

#[test]
fn spawn_releases_the_guard_when_nothing_started() {
    let mut stage = SpawnStage::Start;
    assert!(matches!(spawn_capture(&mut stage, &None, SpawnEvent::Begin), SpawnAction::Resolve));
    assert!(matches!(
        spawn_capture(&mut stage, &None, SpawnEvent::Resolved { path: None }),
        SpawnAction::Done { cache: None, release_guard: true }
    ));
    let mut stage = SpawnStage::Resolving;
    spawn_capture(&mut stage, &None, SpawnEvent::Resolved { path: Some("/x".to_string()) });
    assert!(matches!(
        spawn_capture(&mut stage, &None, SpawnEvent::Spawned { ok: false }),
        SpawnAction::Done { cache: None, release_guard: true }
    ));
}

#[test]
fn install_locations() {
    assert_eq!(join_dir("/home/u", ".local/bin/mintshot"), "/home/u/.local/bin/mintshot");
    assert_eq!(join_dir("/home/u/", ".local/bin/mintshot"), "/home/u/.local/bin/mintshot");
    assert_eq!(join_dir("", "x"), "x");
    assert_eq!(
        install_candidates(&Some("/home/u".to_string())),
        vec!["/home/u/.local/bin/mintshot", "/usr/bin/mintshot", "/usr/local/bin/mintshot"]
    );
    assert_eq!(install_candidates(&None), vec!["/usr/bin/mintshot", "/usr/local/bin/mintshot"]);
}

fn expect_check(a: SearchAction, path: &str) {
    match a {
        SearchAction::CheckExists(p) => assert_eq!(p, path),
        other => panic!("unexpected {:?}", other),
    }
}

#[test]
fn search_finds_the_running_program_first() {
    let mut s = ExecutableSearch::new(Some("/opt/mintshot".to_string()), None, None);
    expect_check(s.step(SearchEvent::Begin), "/opt/mintshot");
    match s.step(SearchEvent::Exists(true)) {
        SearchAction::Found(p) => assert_eq!(p, "/opt/mintshot"),
        other => panic!("unexpected {:?}", other),
    }
}

#[test]
fn search_strips_the_deleted_suffix() {
    let mut s = ExecutableSearch::new(
        Some("/usr/bin/mintshot (deleted) (deleted)".to_string()),
        None,
        None,
    );
    expect_check(s.step(SearchEvent::Begin), "/usr/bin/mintshot (deleted) (deleted)");
    expect_check(s.step(SearchEvent::Exists(false)), "/usr/bin/mintshot");
    match s.step(SearchEvent::Exists(true)) {
        SearchAction::Found(p) => assert_eq!(p, "/usr/bin/mintshot"),
        other => panic!("unexpected {:?}", other),
    }
}

#[test]
fn search_walks_the_whole_chain() {
    let mut s = ExecutableSearch::new(
        Some("/gone".to_string()),
        Some("./target/mintshot".to_string()),
        Some("/home/u".to_string()),
    );
    expect_check(s.step(SearchEvent::Begin), "/gone");
    expect_check(s.step(SearchEvent::Exists(false)), "/gone");
    match s.step(SearchEvent::Exists(false)) {
        SearchAction::Canonicalize(p) => assert_eq!(p, "./target/mintshot"),
        other => panic!("unexpected {:?}", other),
    }
    expect_check(s.step(SearchEvent::Canonicalized(None)), "/home/u/.local/bin/mintshot");
    expect_check(s.step(SearchEvent::Exists(false)), "/usr/bin/mintshot");
    expect_check(s.step(SearchEvent::Exists(false)), "/usr/local/bin/mintshot");
    assert!(matches!(s.step(SearchEvent::Exists(false)), SearchAction::RunWhich));
    expect_check(
        s.step(SearchEvent::WhichOutput(Some(b"  /snap/bin/mintshot\n".to_vec()))),
        "/snap/bin/mintshot",
    );
    match s.step(SearchEvent::Exists(true)) {
        SearchAction::Found(p) => assert_eq!(p, "/snap/bin/mintshot"),
        other => panic!("unexpected {:?}", other),
    }
}

#[test]
fn search_tries_an_absolute_argv0_then_gives_up() {
    let mut s = ExecutableSearch::new(None, Some("/abs/mintshot".to_string()), None);
    expect_check(s.step(SearchEvent::Begin), "/abs/mintshot");
    match s.step(SearchEvent::Exists(false)) {
        SearchAction::Canonicalize(p) => assert_eq!(p, "/abs/mintshot"),
        other => panic!("unexpected {:?}", other),
    }
    expect_check(s.step(SearchEvent::Canonicalized(Some("/real/mintshot".to_string()))), "/real/mintshot");
    expect_check(s.step(SearchEvent::Exists(false)), "/usr/bin/mintshot");
    s.step(SearchEvent::Exists(false));
    assert!(matches!(s.step(SearchEvent::Exists(false)), SearchAction::RunWhich));
    match s.step(SearchEvent::WhichOutput(Some(b" \n".to_vec()))) {
        SearchAction::NotFound(m) => assert_eq!(
            m,
            "Cannot find mintshot executable. Tried: current_exe, argv[0], \
             [\"/usr/bin/mintshot\", \"/usr/local/bin/mintshot\"], $PATH"
        ),
        other => panic!("unexpected {:?}", other),
    }
}

#[test]
fn search_skips_a_bare_argv0() {
    let mut s = ExecutableSearch::new(None, Some("mintshot".to_string()), None);
    expect_check(s.step(SearchEvent::Begin), "/usr/bin/mintshot");
}

#[test]
fn display_wait_backs_off_and_gives_up() {
    assert_eq!(
        wait_decision(1, 0, 60),
        WaitDecision::Retry { wait_ms: 100, log: WaitLog::FirstWait }
    );
    assert_eq!(wait_decision(2, 0, 60), WaitDecision::Retry { wait_ms: 200, log: WaitLog::Quiet });
    assert_eq!(wait_decision(3, 1, 60), WaitDecision::Retry { wait_ms: 400, log: WaitLog::Quiet });
    assert_eq!(wait_decision(4, 1, 60), WaitDecision::Retry { wait_ms: 800, log: WaitLog::Quiet });
    assert_eq!(wait_decision(5, 2, 60), WaitDecision::Retry { wait_ms: 1600, log: WaitLog::Quiet });
    assert_eq!(wait_decision(6, 3, 60), WaitDecision::Retry { wait_ms: 2000, log: WaitLog::Quiet });
    assert_eq!(
        wait_decision(10, 5, 60),
        WaitDecision::Retry { wait_ms: 2000, log: WaitLog::StillWaiting }
    );
    assert_eq!(wait_decision(40, 60, 60), WaitDecision::GiveUp);
    assert_eq!(
        display_wait_error(60, 41, ""),
        "X display not available after 60 seconds (attempts: 41). DISPLAY=. Is the X server running?"
    );
}

#[test]
fn a_press_while_a_capture_runs_is_ignored() {
    assert_eq!(press_action(false), PressAction::StartCapture);
    assert_eq!(press_action(true), PressAction::Ignore);
}

#[test]
fn search_reports_every_install_location_when_nothing_is_found() {
    let mut s = ExecutableSearch::new(None, None, Some("/home/ann".to_string()));
    expect_check(s.step(SearchEvent::Begin), "/home/ann/.local/bin/mintshot");
    s.step(SearchEvent::Exists(false));
    s.step(SearchEvent::Exists(false));
    assert!(matches!(s.step(SearchEvent::Exists(false)), SearchAction::RunWhich));
    match s.step(SearchEvent::WhichOutput(None)) {
        SearchAction::NotFound(m) => assert_eq!(
            m,
            "Cannot find mintshot executable. Tried: current_exe, argv[0], \
             [\"/home/ann/.local/bin/mintshot\", \"/usr/bin/mintshot\", \
             \"/usr/local/bin/mintshot\"], $PATH"
        ),
        other => panic!("unexpected {:?}", other),
    }
}

#[test]
fn only_one_capture_runs_until_it_exits() {
    let mut guard = false;
    assert_eq!(press_action(guard), PressAction::StartCapture);
    guard = true;
    let mut stage = SpawnStage::Start;
    let cached = Some("/usr/bin/mintshot".to_string());
    assert!(matches!(spawn_capture(&mut stage, &cached, SpawnEvent::Begin), SpawnAction::Spawn(_)));
    match spawn_capture(&mut stage, &cached, SpawnEvent::Spawned { ok: true }) {
        SpawnAction::Done { release_guard, .. } => assert!(!release_guard),
        other => panic!("unexpected {:?}", other),
    }
    // The capture is running: a repeated press starts nothing.
    assert_eq!(press_action(guard), PressAction::Ignore);
    // The capture exits and its waiting thread clears the guard.
    guard = false;
    assert_eq!(press_action(guard), PressAction::StartCapture);
}
