use laios::event_loop::{decide, drive, LoopControl, LoopState, PlatformEvent, ESCAPE_KEY};

const KEY_A: u32 = 10;

fn key(code: u32) -> PlatformEvent {
    PlatformEvent::KeyboardInput { key: Some(code) }
}

#[test]
fn escape_key_is_the_window_systems_escape() {
    assert_eq!(ESCAPE_KEY, 36);
    assert_eq!(winit::VirtualKeyCode::Escape as u32, ESCAPE_KEY);
    assert_eq!(winit::VirtualKeyCode::A as u32, KEY_A);
}

#[test]
fn decide_terminates_on_close_and_escape_only() {
    assert_eq!(decide(&PlatformEvent::CloseRequested), LoopControl::Terminate);
    assert_eq!(decide(&key(ESCAPE_KEY)), LoopControl::Terminate);
    assert_eq!(decide(&key(KEY_A)), LoopControl::Continue);
    assert_eq!(decide(&key(35)), LoopControl::Continue);
    assert_eq!(decide(&key(37)), LoopControl::Continue);
    assert_eq!(decide(&PlatformEvent::KeyboardInput { key: None }), LoopControl::Continue);
    assert_eq!(decide(&PlatformEvent::Other), LoopControl::Continue);
}

#[test]
fn key_a_then_escape_stops_after_the_second_event() {
    let events = [key(KEY_A), key(ESCAPE_KEY)];
    let after_first = LoopState::Running.step(&events[0]);
    assert_eq!(after_first, LoopState::Running);
    let after_second = after_first.step(&events[1]);
    assert_eq!(after_second, LoopState::Stopped);
    assert_eq!(drive(&events), (LoopState::Stopped, 2));
}

#[test]
fn close_request_stops_at_once() {
    assert_eq!(LoopState::Running.step(&PlatformEvent::CloseRequested), LoopState::Stopped);
    assert_eq!(drive(&[PlatformEvent::CloseRequested]), (LoopState::Stopped, 1));
    let after_others = [PlatformEvent::Other, key(KEY_A), PlatformEvent::CloseRequested];
    assert_eq!(drive(&after_others), (LoopState::Stopped, 3));
}

#[test]
fn unrelated_events_leave_the_state_unchanged() {
    for event in [PlatformEvent::Other, key(KEY_A), PlatformEvent::KeyboardInput { key: None }] {
        assert_eq!(LoopState::Running.step(&event), LoopState::Running);
        assert_eq!(LoopState::Stopped.step(&event), LoopState::Stopped);
    }
}

#[test]
fn thousand_unrelated_events_then_close_terminate_once() {
    let mut events = vec![PlatformEvent::Other; 1000];
    events.push(PlatformEvent::CloseRequested);
    let mut state = LoopState::Running;
    let mut terminations = 0;
    for (index, event) in events.iter().enumerate() {
        let next = state.step(event);
        if state == LoopState::Running && next == LoopState::Stopped {
            terminations += 1;
            assert_eq!(index, 1000);
        }
        state = next;
    }
    assert_eq!(terminations, 1);
    assert_eq!(drive(&events), (LoopState::Stopped, 1001));
}

#[test]
fn stopped_is_terminal() {
    assert_eq!(LoopState::Stopped.step(&PlatformEvent::CloseRequested), LoopState::Stopped);
    assert_eq!(LoopState::Stopped.step(&key(ESCAPE_KEY)), LoopState::Stopped);
    assert_eq!(LoopState::Stopped.step(&PlatformEvent::Other), LoopState::Stopped);
}

#[test]
fn drive_leaves_events_after_the_first_terminating_one() {
    let events = [key(ESCAPE_KEY), PlatformEvent::Other, PlatformEvent::CloseRequested];
    assert_eq!(drive(&events), (LoopState::Stopped, 1));
}

#[test]
fn drive_without_terminating_event_takes_all_and_keeps_running() {
    assert_eq!(drive(&[]), (LoopState::Running, 0));
    let events = [PlatformEvent::Other, key(KEY_A), PlatformEvent::KeyboardInput { key: None }];
    assert_eq!(drive(&events), (LoopState::Running, 3));
}
