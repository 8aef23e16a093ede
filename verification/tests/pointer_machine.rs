use waywin::event::{DeviceEvent, Event, PointerButton, ScrollDirection, WaywinEvent};
use waywin::pointer::{pointer_button_from_code, PointerInput, PointerState};

fn window_kinds(q: &[WaywinEvent]) -> Vec<(String, usize)> {
    q.iter()
        .filter_map(|e| match e {
            WaywinEvent::WindowEvent { event, window_id } => {
                let name = match event {
                    Event::PointerEntered => "Entered",
                    Event::PointerLeft => "Left",
                    Event::PointerMoved(_, _) => "Moved",
                    Event::PointerButton { .. } => "Button",
                    Event::Scroll { .. } => "Scroll",
                    _ => "Other",
                };
                Some((name.to_string(), *window_id))
            },
            WaywinEvent::DeviceEvent(_) => None,
        })
        .collect()
}

#[test]
fn enter_emits_entered_then_motion_with_entry_coordinates() {
    let mut p = PointerState::new();
    let mut q: Vec<WaywinEvent> = Vec::new();
    p.process(PointerInput::Enter { window_id: 1, x: 2560, y: 1280 }, &mut q);
    assert_eq!(
        window_kinds(&q),
        vec![("Entered".to_string(), 1), ("Moved".to_string(), 1)]
    );
    assert!(matches!(
        q[1],
        WaywinEvent::WindowEvent { event: Event::PointerMoved(2560, 1280), window_id: 1 }
    ));
    assert_eq!(p.focused_window, Some(1));
}

#[test]
fn enter_while_focused_emits_synthetic_left_first() {
    let mut p = PointerState::new();
    let mut q: Vec<WaywinEvent> = Vec::new();
    p.process(PointerInput::Enter { window_id: 1, x: 0, y: 0 }, &mut q);
    q.clear();
    p.process(PointerInput::Enter { window_id: 2, x: 256, y: 256 }, &mut q);
    assert_eq!(
        window_kinds(&q),
        vec![
            ("Left".to_string(), 1),
            ("Entered".to_string(), 2),
            ("Moved".to_string(), 2)
        ]
    );
    assert_eq!(p.focused_window, Some(2));
}

#[test]
fn leave_of_unfocused_window_is_dropped() {
    let mut p = PointerState::new();
    let mut q: Vec<WaywinEvent> = Vec::new();
    p.process(PointerInput::Enter { window_id: 1, x: 0, y: 0 }, &mut q);
    q.clear();
    p.process(PointerInput::Leave { window_id: 7 }, &mut q);
    assert!(q.is_empty());
    assert_eq!(p.focused_window, Some(1));
    p.process(PointerInput::Leave { window_id: 1 }, &mut q);
    assert_eq!(window_kinds(&q), vec![("Left".to_string(), 1)]);
    assert_eq!(p.focused_window, None);
}

#[test]
fn motion_without_focus_is_dropped() {
    let mut p = PointerState::new();
    let mut q: Vec<WaywinEvent> = Vec::new();
    p.process(PointerInput::Motion { x: 10, y: 20 }, &mut q);
    assert!(q.is_empty(), "never invent a focus");
}

#[test]
fn button_events_translate_codes() {
    let mut p = PointerState::new();
    let mut q: Vec<WaywinEvent> = Vec::new();
    p.process(PointerInput::Enter { window_id: 1, x: 0, y: 0 }, &mut q);
    q.clear();
    p.process(PointerInput::Button { code: 0x110, state: 1 }, &mut q);
    p.process(PointerInput::Button { code: 0x110, state: 0 }, &mut q);
    assert_eq!(q.len(), 2);
    assert!(matches!(
        q[0],
        WaywinEvent::WindowEvent {
            event: Event::PointerButton { down: true, button: PointerButton::Left },
            window_id: 1
        }
    ));
    assert!(matches!(
        q[1],
        WaywinEvent::WindowEvent {
            event: Event::PointerButton { down: false, button: PointerButton::Left },
            window_id: 1
        }
    ));
}

#[test]
fn unknown_button_state_is_dropped() {
    let mut p = PointerState::new();
    let mut q: Vec<WaywinEvent> = Vec::new();
    p.process(PointerInput::Enter { window_id: 1, x: 0, y: 0 }, &mut q);
    q.clear();
    p.process(PointerInput::Button { code: 0x110, state: 7 }, &mut q);
    assert!(q.is_empty());
}

#[test]
fn button_table() {
    assert_eq!(pointer_button_from_code(0x110), PointerButton::Left);
    assert_eq!(pointer_button_from_code(0x111), PointerButton::Right);
    assert_eq!(pointer_button_from_code(0x112), PointerButton::Middle);
    assert_eq!(pointer_button_from_code(0x114), PointerButton::Forward);
    assert_eq!(pointer_button_from_code(0x113), PointerButton::Back);
    assert_eq!(pointer_button_from_code(0x999), PointerButton::Unknown(0x999));
}

#[test]
fn scroll_sign_is_normalized() {
    let mut p = PointerState::new();
    let mut q: Vec<WaywinEvent> = Vec::new();
    p.process(PointerInput::Enter { window_id: 1, x: 0, y: 0 }, &mut q);
    q.clear();
    // native vertical value +2560 (10 pixels in 1/256ths) becomes -2560
    p.process(PointerInput::Axis { axis: 0, value: 2560 }, &mut q);
    assert!(matches!(
        q[0],
        WaywinEvent::WindowEvent {
            event: Event::Scroll { direction: ScrollDirection::Vertical, value: -2560 },
            window_id: 1
        }
    ));
    q.clear();
    p.process(PointerInput::Axis { axis: 1, value: -512 }, &mut q);
    assert!(matches!(
        q[0],
        WaywinEvent::WindowEvent {
            event: Event::Scroll { direction: ScrollDirection::Horizontal, value: 512 },
            window_id: 1
        }
    ));
}

#[test]
fn unknown_axis_is_dropped() {
    let mut p = PointerState::new();
    let mut q: Vec<WaywinEvent> = Vec::new();
    p.process(PointerInput::Enter { window_id: 1, x: 0, y: 0 }, &mut q);
    q.clear();
    p.process(PointerInput::Axis { axis: 5, value: 100 }, &mut q);
    assert!(q.is_empty());
}

#[test]
fn scroll_without_focus_is_dropped() {
    let mut p = PointerState::new();
    let mut q: Vec<WaywinEvent> = Vec::new();
    p.process(PointerInput::Axis { axis: 0, value: 100 }, &mut q);
    assert!(q.is_empty());
}

#[test]
fn relative_motion_flows_without_focus() {
    let mut p = PointerState::new();
    let mut q: Vec<WaywinEvent> = Vec::new();
    p.process(
        PointerInput::RelativeMotion { dx: 10, dy: -20, dx_unaccel: 30, dy_unaccel: -40 },
        &mut q,
    );
    assert_eq!(q.len(), 1);
    assert!(matches!(
        q[0],
        WaywinEvent::DeviceEvent(DeviceEvent::PointerMoved {
            delta_x: 10,
            delta_y: -20,
            delta_x_unaccel: 30,
            delta_y_unaccel: -40
        })
    ));
}

#[test]
fn scroll_direction_predicates() {
    assert!(ScrollDirection::Vertical.is_vertical());
    assert!(!ScrollDirection::Vertical.is_horizontal());
    assert!(ScrollDirection::Horizontal.is_horizontal());
    assert!(!ScrollDirection::Horizontal.is_vertical());
}
