use waywin::event::{Event, WaywinEvent};
use waywin::runloop::{
    drain_queue, has_live_window, prune_dead_events, run_iteration, sweep_one, sweep_windows,
    LoopPhase, RunControl, WindowSlot,
};
use waywin::window::WindowState;

fn kinds(queue: &[WaywinEvent]) -> Vec<(String, usize)> {
    queue
        .iter()
        .map(|e| match e {
            WaywinEvent::WindowEvent { event, window_id } => {
                let name = match event {
                    Event::Paint => "Paint",
                    Event::Close => "Close",
                    Event::Resized => "Resized",
                    Event::NewScaleFactor => "NewScaleFactor",
                    Event::Focus(_) => "Focus",
                    Event::Key { .. } => "Key",
                    Event::PointerEntered => "PointerEntered",
                    Event::PointerLeft => "PointerLeft",
                    Event::PointerMoved(_, _) => "PointerMoved",
                    Event::PointerButton { .. } => "PointerButton",
                    Event::Scroll { .. } => "Scroll",
                };
                (name.to_string(), *window_id)
            },
            WaywinEvent::DeviceEvent(_) => ("Device".to_string(), usize::MAX),
        })
        .collect()
}

#[test]
fn first_iteration_paints_even_without_configure() {
    let mut w = WindowState::new(3, false);
    let mut q: Vec<WaywinEvent> = Vec::new();
    sweep_one(&mut w, &mut q);
    assert_eq!(kinds(&q), vec![("Paint".to_string(), 3)]);
}

#[test]
fn configure_then_ack_yields_resized_then_paint() {
    // One loop iteration: a configure proposing (1024,768) arrives and
    // is acknowledged, then the sweep runs.
    let mut w = WindowState::new(3, false);
    let mut q: Vec<WaywinEvent> = Vec::new();
    w.propose_size(1024, 768);
    w.ack_configure();
    sweep_one(&mut w, &mut q);
    assert_eq!(
        kinds(&q),
        vec![("Resized".to_string(), 3), ("Paint".to_string(), 3)]
    );
    assert_eq!(w.get_logical_size(), (1024, 768));
}

#[test]
fn fractional_scale_yields_scale_resize_paint() {
    let mut w = WindowState::new(4, true);
    let mut q: Vec<WaywinEvent> = Vec::new();
    sweep_one(&mut w, &mut q); // settle the first paint
    q.clear();
    w.set_fractional_scale(180);
    sweep_one(&mut w, &mut q);
    assert_eq!(
        kinds(&q),
        vec![
            ("NewScaleFactor".to_string(), 4),
            ("Resized".to_string(), 4),
            ("Paint".to_string(), 4)
        ]
    );
    assert_eq!(w.get_physical_size(), (1200, 900));
}

#[test]
fn many_redraw_triggers_one_paint() {
    let mut w = WindowState::new(5, false);
    let mut q: Vec<WaywinEvent> = Vec::new();
    sweep_one(&mut w, &mut q);
    q.clear();
    // several redraw-triggering changes within one iteration
    w.request_redraw();
    w.request_redraw();
    w.propose_size(900, 700);
    w.ack_configure();
    w.request_redraw();
    sweep_one(&mut w, &mut q);
    let paints = q
        .iter()
        .filter(|e| {
            matches!(e, WaywinEvent::WindowEvent { event: Event::Paint, window_id } if *window_id == 5)
        })
        .count();
    assert_eq!(paints, 1, "redraw triggers must coalesce into one Paint");
}

#[test]
fn repeated_identical_proposals_one_resize() {
    let mut w = WindowState::new(6, false);
    let mut q: Vec<WaywinEvent> = Vec::new();
    sweep_one(&mut w, &mut q);
    q.clear();
    for _ in 0..5 {
        w.propose_size(1024, 768);
    }
    w.ack_configure();
    sweep_one(&mut w, &mut q);
    let resizes = q
        .iter()
        .filter(|e| {
            matches!(e, WaywinEvent::WindowEvent { event: Event::Resized, window_id } if *window_id == 6)
        })
        .count();
    assert_eq!(resizes, 1, "one Resized, not one per proposal");
}

#[test]
fn degenerate_proposal_no_resize_event() {
    let mut w = WindowState::new(6, false);
    let mut q: Vec<WaywinEvent> = Vec::new();
    sweep_one(&mut w, &mut q);
    q.clear();
    let before = w.get_logical_size();
    w.propose_size(0, 0);
    w.ack_configure();
    sweep_one(&mut w, &mut q);
    assert!(q.is_empty(), "no Resized and no Paint owed");
    assert_eq!(w.get_logical_size(), before);
}

#[test]
fn sweep_registry_drops_dead_entries_silently() {
    let live = WindowState::new(10, false);
    let dead = WindowState::new(11, false);
    let mut slots = vec![
        WindowSlot { alive: true, win: live },
        WindowSlot { alive: false, win: dead },
    ];
    let mut q: Vec<WaywinEvent> = Vec::new();
    sweep_windows(&mut slots, &mut q);
    assert_eq!(slots.len(), 1);
    assert_eq!(slots[0].win.id(), 10);
    assert!(q.iter().all(|e| match e {
        WaywinEvent::WindowEvent { window_id, .. } => *window_id != 11,
        WaywinEvent::DeviceEvent(_) => true,
    }));
}

#[test]
fn prune_removes_events_for_dropped_windows() {
    let live = WindowState::new(10, false);
    let slots = vec![WindowSlot { alive: true, win: live }];
    let mut q = vec![
        WaywinEvent::WindowEvent { event: Event::Close, window_id: 10 },
        WaywinEvent::WindowEvent { event: Event::Paint, window_id: 99 },
        WaywinEvent::DeviceEvent(waywin::event::DeviceEvent::PointerMoved {
            delta_x: 1,
            delta_y: 2,
            delta_x_unaccel: 3,
            delta_y_unaccel: 4,
        }),
    ];
    prune_dead_events(&mut q, &slots);
    assert_eq!(q.len(), 2);
    assert!(matches!(
        q[0],
        WaywinEvent::WindowEvent { event: Event::Close, window_id: 10 }
    ));
    assert!(matches!(q[1], WaywinEvent::DeviceEvent(_)));
}

#[test]
fn has_live_window_checks_alive_entries_only() {
    let w = WindowState::new(10, false);
    let slots = vec![
        WindowSlot { alive: false, win: WindowState::new(11, false) },
        WindowSlot { alive: true, win: w },
    ];
    assert!(has_live_window(&slots, 10));
    assert!(!has_live_window(&slots, 11));
    assert!(!has_live_window(&slots, 12));
}

#[test]
fn resize_events_precede_paint_within_iteration() {
    let mut w = WindowState::new(8, true);
    let mut q: Vec<WaywinEvent> = Vec::new();
    w.propose_size(640, 480);
    w.ack_configure();
    w.set_fractional_scale(240);
    sweep_one(&mut w, &mut q);
    let names: Vec<String> = kinds(&q).into_iter().map(|(n, _)| n).collect();
    let paint_pos = names.iter().position(|n| n == "Paint").unwrap();
    for (i, n) in names.iter().enumerate() {
        if n == "Resized" || n == "NewScaleFactor" {
            assert!(i < paint_pos, "size must be known before the consumer redraws");
        }
    }
}

#[test]
fn drain_returns_events_in_arrival_order() {
    let mut q = vec![
        WaywinEvent::WindowEvent { event: Event::Close, window_id: 1 },
        WaywinEvent::WindowEvent { event: Event::Paint, window_id: 2 },
    ];
    let out = drain_queue(&mut q);
    assert!(q.is_empty());
    assert_eq!(out.len(), 2);
    assert!(matches!(
        out[0],
        WaywinEvent::WindowEvent { event: Event::Close, window_id: 1 }
    ));
    assert!(matches!(
        out[1],
        WaywinEvent::WindowEvent { event: Event::Paint, window_id: 2 }
    ));
}

#[test]
fn full_iteration_configure_ack_then_deliver() {
    // One loop iteration end to end: a window receives a configure
    // proposing (1024,768) and its acknowledgment, a second window was
    // dropped while a Close addressed to it was still queued.
    let mut live = WindowState::new(20, false);
    let mut q: Vec<WaywinEvent> = Vec::new();
    let mut slots = vec![WindowSlot { alive: true, win: live }];
    run_iteration(&mut slots, &mut q); // settle the first paint
    live = slots[0].win;
    live.propose_size(1024, 768);
    live.ack_configure();
    let dead = WindowState::new(21, false);
    let mut slots = vec![
        WindowSlot { alive: true, win: live },
        WindowSlot { alive: false, win: dead },
    ];
    q.push(WaywinEvent::WindowEvent { event: Event::Close, window_id: 21 });
    let out = run_iteration(&mut slots, &mut q);
    assert!(q.is_empty());
    assert_eq!(slots.len(), 1);
    assert_eq!(
        kinds(&out),
        vec![("Resized".to_string(), 20), ("Paint".to_string(), 20)]
    );
    assert_eq!(slots[0].win.get_logical_size(), (1024, 768));
}

#[test]
fn run_control_rejects_reentrant_run() {
    let mut c = RunControl::new();
    assert_eq!(c.phase, LoopPhase::Idle);
    assert!(c.start());
    assert!(c.is_running());
    assert!(!c.start(), "a second run while running is a usage error");
    assert!(c.is_running());
}

#[test]
fn run_control_stops_on_false_flag() {
    let mut c = RunControl::new();
    assert!(c.start());
    assert!(!c.after_delivery(true));
    assert!(c.is_running());
    assert!(c.after_delivery(false));
    assert!(!c.is_running());
    // once stopped, the callback is uninstalled; a new run may start
    assert!(c.start());
    c.finish();
    assert!(!c.is_running());
}
