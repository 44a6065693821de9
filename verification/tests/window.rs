use taupy_window::config::AppConfig;
use taupy_window::window::{on_event, plan_window, Flow, HostEvent, HostState};

#[test]
fn window_takes_title_size_and_port() {
    let mut cfg = AppConfig::default();
    cfg.title = "Notes".to_string();
    cfg.width = 1024;
    cfg.height = 768;
    cfg.port = 9123;
    let plan = plan_window(&cfg);
    assert_eq!(plan.title, "Notes");
    assert_eq!(plan.width, 1024);
    assert_eq!(plan.height, 768);
    assert_eq!(plan.url, "http://localhost:9123");
}

#[test]
fn default_window() {
    let plan = plan_window(&AppConfig::default());
    assert_eq!(plan.title, "TauPy App");
    assert_eq!(plan.width, 800);
    assert_eq!(plan.height, 600);
    assert_eq!(plan.url, "http://localhost:8000");
}

#[test]
fn window_address_for_the_ends_of_the_range() {
    let mut cfg = AppConfig::default();
    cfg.port = 0;
    assert_eq!(plan_window(&cfg).url, "http://localhost:0");
    cfg.port = 65535;
    assert_eq!(plan_window(&cfg).url, "http://localhost:65535");
}

#[test]
fn reserved_settings_do_not_change_the_window() {
    let mut cfg = AppConfig::default();
    cfg.frameless = true;
    cfg.transparent = true;
    cfg.always_on_top = true;
    cfg.resizable = false;
    cfg.min_width = Some(1);
    cfg.max_height = Some(2);
    cfg.open_devtools = true;
    cfg.external = true;
    let plan = plan_window(&cfg);
    let plain = plan_window(&AppConfig::default());
    assert_eq!(plan.title, plain.title);
    assert_eq!(plan.width, plain.width);
    assert_eq!(plan.height, plain.height);
    assert_eq!(plan.url, plain.url);
}

#[test]
fn close_request_leaves_the_loop() {
    assert_eq!(
        on_event(HostState::Running, HostEvent::CloseRequested),
        (HostState::Closing, Flow::Exit)
    );
    assert_eq!(
        on_event(HostState::Initializing, HostEvent::CloseRequested),
        (HostState::Closing, Flow::Exit)
    );
}

#[test]
fn start_of_the_loop_opens_the_window() {
    assert_eq!(
        on_event(HostState::Initializing, HostEvent::Started),
        (HostState::Running, Flow::Wait)
    );
    assert_eq!(on_event(HostState::Running, HostEvent::Started), (HostState::Running, Flow::Wait));
}

#[test]
fn other_events_are_ignored() {
    assert_eq!(
        on_event(HostState::Initializing, HostEvent::Other),
        (HostState::Initializing, Flow::Wait)
    );
    assert_eq!(on_event(HostState::Running, HostEvent::Other), (HostState::Running, Flow::Wait));
    assert_eq!(on_event(HostState::Closing, HostEvent::Other), (HostState::Closing, Flow::Exit));
    assert_eq!(
        on_event(HostState::Terminated, HostEvent::Other),
        (HostState::Terminated, Flow::Exit)
    );
}

#[test]
fn only_a_close_request_leaves_an_open_window() {
    for event in [HostEvent::Started, HostEvent::Destroyed, HostEvent::Other] {
        assert_eq!(on_event(HostState::Running, event), (HostState::Running, Flow::Wait));
    }
    for event in [HostEvent::Destroyed, HostEvent::Other] {
        assert_eq!(
            on_event(HostState::Initializing, event),
            (HostState::Initializing, Flow::Wait)
        );
    }
}

#[test]
fn teardown_ends_only_a_host_that_is_leaving() {
    assert_eq!(
        on_event(HostState::Closing, HostEvent::Destroyed),
        (HostState::Terminated, Flow::Exit)
    );
    assert_eq!(
        on_event(HostState::Running, HostEvent::Destroyed),
        (HostState::Running, Flow::Wait)
    );
    assert_eq!(
        on_event(HostState::Initializing, HostEvent::Destroyed),
        (HostState::Initializing, Flow::Wait)
    );
    assert_eq!(
        on_event(HostState::Terminated, HostEvent::Destroyed),
        (HostState::Terminated, Flow::Exit)
    );
}

#[test]
fn closing_and_terminated_stay() {
    for event in [HostEvent::Started, HostEvent::CloseRequested, HostEvent::Other] {
        assert_eq!(on_event(HostState::Closing, event), (HostState::Closing, Flow::Exit));
    }
    for event in
        [HostEvent::Started, HostEvent::CloseRequested, HostEvent::Destroyed, HostEvent::Other]
    {
        assert_eq!(on_event(HostState::Terminated, event), (HostState::Terminated, Flow::Exit));
    }
}

#[test]
fn every_transition() {
    let states =
        [HostState::Initializing, HostState::Running, HostState::Closing, HostState::Terminated];
    let events =
        [HostEvent::Started, HostEvent::CloseRequested, HostEvent::Destroyed, HostEvent::Other];
    let i = HostState::Initializing;
    let r = HostState::Running;
    let c = HostState::Closing;
    let t = HostState::Terminated;
    let table = [[r, c, i, i], [r, c, r, r], [c, c, t, c], [t, t, t, t]];
    for (row, state) in states.iter().enumerate() {
        for (col, event) in events.iter().enumerate() {
            let want = table[row][col];
            let flow = if want == c || want == t { Flow::Exit } else { Flow::Wait };
            assert_eq!(on_event(*state, *event), (want, flow));
        }
    }
}

#[test]
fn a_whole_life_of_the_host() {
    let events = [
        HostEvent::Started,
        HostEvent::Other,
        HostEvent::Other,
        HostEvent::CloseRequested,
        HostEvent::Other,
        HostEvent::Destroyed,
    ];
    let expected = [
        (HostState::Running, Flow::Wait),
        (HostState::Running, Flow::Wait),
        (HostState::Running, Flow::Wait),
        (HostState::Closing, Flow::Exit),
        (HostState::Closing, Flow::Exit),
        (HostState::Terminated, Flow::Exit),
    ];
    let mut state = HostState::Initializing;
    for (event, want) in events.iter().zip(expected.iter()) {
        let got = on_event(state, *event);
        assert_eq!(got, *want);
        state = got.0;
    }
}
