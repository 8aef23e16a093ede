use waywin::event::{Event, PhysicalKey, WaywinEvent};
use waywin::keyboard::{KeyboardInput, KeyboardState, TimerAction};
use waywin::keymap::{make_key_down_event, make_key_up_event};

fn ready_keyboard(window: usize) -> (KeyboardState, Vec<WaywinEvent>) {
    let mut kb = KeyboardState::new();
    let mut q: Vec<WaywinEvent> = Vec::new();
    kb.process(KeyboardInput::Keymap { ok: true }, &mut q);
    kb.process(KeyboardInput::RepeatInfo { rate: 33, delay: 500 }, &mut q);
    kb.process(KeyboardInput::Enter { window_id: window }, &mut q);
    q.clear();
    (kb, q)
}

fn focus_events(q: &[WaywinEvent]) -> Vec<(usize, bool)> {
    q.iter()
        .filter_map(|e| match e {
            WaywinEvent::WindowEvent { event: Event::Focus(gained), window_id } => {
                Some((*window_id, *gained))
            },
            _ => None,
        })
        .collect()
}

fn key_downs(q: &[WaywinEvent]) -> Vec<(usize, PhysicalKey)> {
    q.iter()
        .filter_map(|e| match e {
            WaywinEvent::WindowEvent {
                event: Event::Key { down: true, physical_key, .. },
                window_id,
            } => Some((*window_id, *physical_key)),
            _ => None,
        })
        .collect()
}

#[test]
fn enter_focuses_window() {
    let mut kb = KeyboardState::new();
    let mut q: Vec<WaywinEvent> = Vec::new();
    kb.process(KeyboardInput::Enter { window_id: 1 }, &mut q);
    assert_eq!(focus_events(&q), vec![(1, true)]);
    assert_eq!(kb.focused_window, Some(1));
}

#[test]
fn enter_while_focused_emits_synthetic_unfocus_first() {
    let mut kb = KeyboardState::new();
    let mut q: Vec<WaywinEvent> = Vec::new();
    kb.process(KeyboardInput::Enter { window_id: 1 }, &mut q);
    kb.process(KeyboardInput::Enter { window_id: 2 }, &mut q);
    assert_eq!(focus_events(&q), vec![(1, true), (1, false), (2, true)]);
    assert_eq!(kb.focused_window, Some(2));
}

#[test]
fn leave_unfocuses_only_the_holder() {
    let mut kb = KeyboardState::new();
    let mut q: Vec<WaywinEvent> = Vec::new();
    kb.process(KeyboardInput::Enter { window_id: 1 }, &mut q);
    q.clear();
    // a leave for a window that is not focused is an anomaly: dropped
    kb.process(KeyboardInput::Leave { window_id: 9 }, &mut q);
    assert!(q.is_empty());
    assert_eq!(kb.focused_window, Some(1));
    kb.process(KeyboardInput::Leave { window_id: 1 }, &mut q);
    assert_eq!(focus_events(&q), vec![(1, false)]);
    assert_eq!(kb.focused_window, None);
}

#[test]
fn key_without_focus_is_dropped() {
    let mut kb = KeyboardState::new();
    let mut q: Vec<WaywinEvent> = Vec::new();
    kb.process(KeyboardInput::Keymap { ok: true }, &mut q);
    let ev = make_key_down_event(30, 0x61, 0x61, "a".to_string(), "a".to_string(), "a".to_string());
    let t = kb.process(
        KeyboardInput::KeyDown { scancode: 30, event: ev, repeats: true },
        &mut q,
    );
    assert!(q.is_empty());
    assert_eq!(t, TimerAction::Keep);
}

#[test]
fn key_without_keymap_is_dropped() {
    let mut kb = KeyboardState::new();
    let mut q: Vec<WaywinEvent> = Vec::new();
    kb.process(KeyboardInput::Enter { window_id: 1 }, &mut q);
    q.clear();
    let ev = make_key_down_event(30, 0x61, 0x61, "a".to_string(), "a".to_string(), "a".to_string());
    kb.process(
        KeyboardInput::KeyDown { scancode: 30, event: ev, repeats: true },
        &mut q,
    );
    assert!(q.is_empty());
}

#[test]
fn repeatable_key_arms_timer_with_advertised_delay() {
    let (mut kb, mut q) = ready_keyboard(1);
    let ev = make_key_down_event(30, 0x61, 0x61, "a".to_string(), "a".to_string(), "a".to_string());
    let t = kb.process(
        KeyboardInput::KeyDown { scancode: 30, event: ev, repeats: true },
        &mut q,
    );
    assert_eq!(t, TimerAction::Arm(500));
    assert_eq!(key_downs(&q).len(), 1);
    assert!(kb.repeat_state.is_some());
}

#[test]
fn non_repeatable_key_arms_nothing() {
    let (mut kb, mut q) = ready_keyboard(1);
    let ev = make_key_down_event(29, 0xffe3, 0xffe3, String::new(), String::new(), String::new());
    let t = kb.process(
        KeyboardInput::KeyDown { scancode: 29, event: ev, repeats: false },
        &mut q,
    );
    assert_eq!(t, TimerAction::Keep);
    assert!(kb.repeat_state.is_none());
}

#[test]
fn timer_fire_reemits_identical_down_and_rearms_with_interval() {
    // repeat delay 500ms, interval 30ms (rate 33 -> 1000/33 = 30ms)
    let (mut kb, mut q) = ready_keyboard(1);
    let ev = make_key_down_event(30, 0x61, 0x61, "a".to_string(), "a".to_string(), "a".to_string());
    kb.process(
        KeyboardInput::KeyDown { scancode: 30, event: ev, repeats: true },
        &mut q,
    );
    q.clear();
    // key held with no key-up: the armed timer fires
    let t = kb.process(KeyboardInput::RepeatTimer, &mut q);
    assert_eq!(t, TimerAction::Arm(30));
    let downs = key_downs(&q);
    assert_eq!(downs, vec![(1, PhysicalKey::KeyCode(waywin::event::KeyCode::A))]);
    // after key-up, no further repeats occur
    let up = make_key_up_event(30, 0x61, 0x61, "a".to_string(), "a".to_string());
    let t = kb.process(KeyboardInput::KeyUp { scancode: 30, event: up }, &mut q);
    assert_eq!(t, TimerAction::Cancel);
    q.clear();
    let t = kb.process(KeyboardInput::RepeatTimer, &mut q);
    assert_eq!(t, TimerAction::Keep);
    assert!(q.is_empty());
}

#[test]
fn timer_fire_after_refocus_drops_schedule() {
    let (mut kb, mut q) = ready_keyboard(1);
    let ev = make_key_down_event(30, 0x61, 0x61, "a".to_string(), "a".to_string(), "a".to_string());
    kb.process(
        KeyboardInput::KeyDown { scancode: 30, event: ev, repeats: true },
        &mut q,
    );
    // focus moves to another window; the schedule is destroyed
    let t = kb.process(KeyboardInput::Enter { window_id: 2 }, &mut q);
    assert_eq!(t, TimerAction::Cancel);
    q.clear();
    let t = kb.process(KeyboardInput::RepeatTimer, &mut q);
    assert_eq!(t, TimerAction::Keep);
    assert!(q.is_empty(), "no repeat for an unfocused window");
}

#[test]
fn unrelated_key_up_does_not_cancel_repeat() {
    // key A pressed (repeatable), then key B pressed, then key A released:
    // A's schedule was already replaced by B's, and A's release must not
    // cancel B's schedule.
    let (mut kb, mut q) = ready_keyboard(1);
    let a_down = make_key_down_event(30, 0x61, 0x61, "a".to_string(), "a".to_string(), "a".to_string());
    kb.process(
        KeyboardInput::KeyDown { scancode: 30, event: a_down, repeats: true },
        &mut q,
    );
    let b_down = make_key_down_event(48, 0x62, 0x62, "b".to_string(), "b".to_string(), "b".to_string());
    kb.process(
        KeyboardInput::KeyDown { scancode: 48, event: b_down, repeats: true },
        &mut q,
    );
    assert_eq!(kb.repeat_state.as_ref().map(|rs| rs.key), Some(48));
    let a_up = make_key_up_event(30, 0x61, 0x61, "a".to_string(), "a".to_string());
    let t = kb.process(KeyboardInput::KeyUp { scancode: 30, event: a_up }, &mut q);
    assert_eq!(t, TimerAction::Keep, "A's release must not cancel B's repeat");
    assert_eq!(kb.repeat_state.as_ref().map(|rs| rs.key), Some(48));
    q.clear();
    // the timer re-emits B, never A
    kb.process(KeyboardInput::RepeatTimer, &mut q);
    let downs = key_downs(&q);
    assert_eq!(downs, vec![(1, PhysicalKey::KeyCode(waywin::event::KeyCode::B))]);
}

#[test]
fn own_key_up_cancels_repeat() {
    let (mut kb, mut q) = ready_keyboard(1);
    let a_down = make_key_down_event(30, 0x61, 0x61, "a".to_string(), "a".to_string(), "a".to_string());
    kb.process(
        KeyboardInput::KeyDown { scancode: 30, event: a_down, repeats: true },
        &mut q,
    );
    let a_up = make_key_up_event(30, 0x61, 0x61, "a".to_string(), "a".to_string());
    let t = kb.process(KeyboardInput::KeyUp { scancode: 30, event: a_up }, &mut q);
    assert_eq!(t, TimerAction::Cancel);
    assert!(kb.repeat_state.is_none());
}

#[test]
fn repeat_rate_zero_disables_and_cancels() {
    let (mut kb, mut q) = ready_keyboard(1);
    let ev = make_key_down_event(30, 0x61, 0x61, "a".to_string(), "a".to_string(), "a".to_string());
    kb.process(
        KeyboardInput::KeyDown { scancode: 30, event: ev, repeats: true },
        &mut q,
    );
    let t = kb.process(KeyboardInput::RepeatInfo { rate: 0, delay: 0 }, &mut q);
    assert_eq!(t, TimerAction::Cancel);
    assert!(kb.repeat_info.is_none());
    assert!(kb.repeat_state.is_none());
    // with repeat disabled, a repeatable key arms nothing
    let ev = make_key_down_event(30, 0x61, 0x61, "a".to_string(), "a".to_string(), "a".to_string());
    let t = kb.process(
        KeyboardInput::KeyDown { scancode: 30, event: ev, repeats: true },
        &mut q,
    );
    assert_eq!(t, TimerAction::Keep);
}

#[test]
fn repeat_interval_is_one_second_over_rate() {
    let mut kb = KeyboardState::new();
    let mut q: Vec<WaywinEvent> = Vec::new();
    kb.process(KeyboardInput::RepeatInfo { rate: 25, delay: 600 }, &mut q);
    let info = kb.repeat_info.unwrap();
    assert_eq!(info.delay, 600);
    assert_eq!(info.repeat, 40);
}

#[test]
fn modifier_updates_produce_no_event() {
    let (mut kb, mut q) = ready_keyboard(1);
    let t = kb.process(
        KeyboardInput::Modifiers { mods_depressed: 1, mods_latched: 0, mods_locked: 2, group: 0 },
        &mut q,
    );
    assert!(q.is_empty());
    assert_eq!(t, TimerAction::Keep);
    assert_eq!(kb.focused_window, Some(1));
}

#[test]
fn focus_loss_cancels_repeat() {
    let (mut kb, mut q) = ready_keyboard(1);
    let ev = make_key_down_event(30, 0x61, 0x61, "a".to_string(), "a".to_string(), "a".to_string());
    kb.process(
        KeyboardInput::KeyDown { scancode: 30, event: ev, repeats: true },
        &mut q,
    );
    let t = kb.process(KeyboardInput::Leave { window_id: 1 }, &mut q);
    assert_eq!(t, TimerAction::Cancel);
    assert!(kb.repeat_state.is_none());
}
