//! The pointer state machine: focus tracking and motion, button, and
//! scroll normalization.
//!
//! Window-addressed pointer events are only emitted while a window holds
//! pointer focus; notifications arriving without focus are protocol
//! anomalies and are dropped rather than propagated. Relative motion is a
//! device-level stream, independent of focus.
use crate::event::{
    announces_configuration, wevent, DeviceEvent, Event, PointerButton, ScrollDirection,
    WaywinEvent,
};
use crate::trace::{focus_trace_ok, lemma_trace_concat, trace_end};
use vstd::prelude::*;

verus! {

/// The fixed pointer-button table: which portable button a native button
/// code names. The values are the evdev button codes.
pub open spec fn spec_pointer_button(code: u32) -> PointerButton {
    match code {
        0x110u32 => PointerButton::Left,
        0x111u32 => PointerButton::Right,
        0x112u32 => PointerButton::Middle,
        0x114u32 => PointerButton::Forward,
        0x113u32 => PointerButton::Back,
        _ => PointerButton::Unknown(code),
    }
}

/// Translate a native button code to the portable button vocabulary.
pub fn pointer_button_from_code(code: u32) -> (r: PointerButton)
    ensures
        r == spec_pointer_button(code),
{
    match code {
        0x110u32 => PointerButton::Left,
        0x111u32 => PointerButton::Right,
        0x112u32 => PointerButton::Middle,
        0x114u32 => PointerButton::Forward,
        0x113u32 => PointerButton::Back,
        _ => PointerButton::Unknown(code),
    }
}

/// One native pointer notification, with coordinates in 1/256ths of a
/// logical pixel.
pub enum PointerInput {
    /// The pointer entered a window at the given position.
    Enter { window_id: usize, x: i64, y: i64 },
    /// The pointer left a window.
    Leave { window_id: usize },
    /// The pointer moved within the focused window.
    Motion { x: i64, y: i64 },
    /// A button changed state; `state` is the raw protocol value,
    /// 0 released and 1 pressed, anything else unknown.
    Button { code: u32, state: u32 },
    /// A scroll happened; `axis` is the raw protocol value, 0 vertical
    /// and 1 horizontal, anything else unknown. `value` is in the native
    /// polarity.
    Axis { axis: u32, value: i64 },
    /// Unaccelerated relative motion, a device-level stream.
    RelativeMotion { dx: i64, dy: i64, dx_unaccel: i64, dy_unaccel: i64 },
}

/// The pointer state machine.
pub struct PointerState {
    /// The window holding pointer focus, if any.
    pub focused_window: Option<usize>,
}

/// One step of the pointer machine: the successor state and the events
/// appended to the queue.
///
/// Scroll values are negated from the native polarity, so that a
/// positive delivered value means the content moves down or right.
/// Unknown button states, unknown axes, and a scroll magnitude that
/// cannot be negated are dropped as protocol anomalies.
pub open spec fn ptr_step(s: PointerState, input: PointerInput) -> (
    PointerState,
    Seq<WaywinEvent>,
) {
    match input {
        PointerInput::Enter { window_id, x, y } => {
            let entered = seq![
                wevent(Event::PointerEntered, window_id),
                wevent(Event::PointerMoved(x, y), window_id),
            ];
            (
                PointerState { focused_window: Some(window_id) },
                match s.focused_window {
                    Some(prev) => seq![wevent(Event::PointerLeft, prev)] + entered,
                    None => entered,
                },
            )
        },
        PointerInput::Leave { window_id } => {
            if s.focused_window == Some(window_id) {
                (
                    PointerState { focused_window: None },
                    seq![wevent(Event::PointerLeft, window_id)],
                )
            } else {
                (s, Seq::empty())
            }
        },
        PointerInput::Motion { x, y } => {
            match s.focused_window {
                Some(id) => (s, seq![wevent(Event::PointerMoved(x, y), id)]),
                None => (s, Seq::empty()),
            }
        },
        PointerInput::Button { code, state } => {
            match s.focused_window {
                Some(id) => {
                    if state == 1 {
                        (
                            s,
                            seq![
                                wevent(
                                    Event::PointerButton {
                                        down: true,
                                        button: spec_pointer_button(code),
                                    },
                                    id,
                                ),
                            ],
                        )
                    } else if state == 0 {
                        (
                            s,
                            seq![
                                wevent(
                                    Event::PointerButton {
                                        down: false,
                                        button: spec_pointer_button(code),
                                    },
                                    id,
                                ),
                            ],
                        )
                    } else {
                        (s, Seq::empty())
                    }
                },
                None => (s, Seq::empty()),
            }
        },
        PointerInput::Axis { axis, value } => {
            match s.focused_window {
                Some(id) => {
                    if (axis == 0 || axis == 1) && value != i64::MIN {
                        let direction = if axis == 0 {
                            ScrollDirection::Vertical
                        } else {
                            ScrollDirection::Horizontal
                        };
                        (s, seq![wevent(Event::Scroll { direction, value: (-value) as i64 }, id)])
                    } else {
                        (s, Seq::empty())
                    }
                },
                None => (s, Seq::empty()),
            }
        },
        PointerInput::RelativeMotion { dx, dy, dx_unaccel, dy_unaccel } => (
            s,
            seq![
                WaywinEvent::DeviceEvent(
                    DeviceEvent::PointerMoved {
                        delta_x: dx,
                        delta_y: dy,
                        delta_x_unaccel: dx_unaccel,
                        delta_y_unaccel: dy_unaccel,
                    },
                ),
            ],
        ),
    }
}

impl PointerState {
    /// A fresh pointer: no focus.
    pub fn new() -> (s: PointerState)
        ensures
            s == (PointerState { focused_window: None }),
    {
        PointerState { focused_window: None }
    }

    /// Feed one native pointer notification through the machine,
    /// appending the normalized events it produces to `queue`.
    pub fn process(&mut self, input: PointerInput, queue: &mut Vec<WaywinEvent>)
        ensures
            ({
                let (s2, evs) = ptr_step(*old(self), input);
                &&& *final(self) == s2
                &&& final(queue)@ == old(queue)@ + evs
            }),
    {
        let ghost step = ptr_step(*self, input);
        match input {
            PointerInput::Enter { window_id, x, y } => {
                if let Some(prev) = self.focused_window {
                    queue.push(WaywinEvent::WindowEvent {
                        event: Event::PointerLeft,
                        window_id: prev,
                    });
                }
                self.focused_window = Some(window_id);
                queue.push(WaywinEvent::WindowEvent { event: Event::PointerEntered, window_id });
                queue.push(WaywinEvent::WindowEvent { event: Event::PointerMoved(x, y), window_id });
            },
            PointerInput::Leave { window_id } => {
                if self.focused_window == Some(window_id) {
                    self.focused_window = None;
                    queue.push(WaywinEvent::WindowEvent { event: Event::PointerLeft, window_id });
                }
            },
            PointerInput::Motion { x, y } => {
                if let Some(id) = self.focused_window {
                    queue.push(WaywinEvent::WindowEvent {
                        event: Event::PointerMoved(x, y),
                        window_id: id,
                    });
                }
            },
            PointerInput::Button { code, state } => {
                if let Some(id) = self.focused_window {
                    if state == 1 || state == 0 {
                        queue.push(WaywinEvent::WindowEvent {
                            event: Event::PointerButton {
                                down: state == 1,
                                button: pointer_button_from_code(code),
                            },
                            window_id: id,
                        });
                    }
                }
            },
            PointerInput::Axis { axis, value } => {
                if let Some(id) = self.focused_window {
                    if (axis == 0 || axis == 1) && value != i64::MIN {
                        let direction = if axis == 0 {
                            ScrollDirection::Vertical
                        } else {
                            ScrollDirection::Horizontal
                        };
                        queue.push(WaywinEvent::WindowEvent {
                            event: Event::Scroll { direction, value: -value },
                            window_id: id,
                        });
                    }
                }
            },
            PointerInput::RelativeMotion { dx, dy, dx_unaccel, dy_unaccel } => {
                queue.push(WaywinEvent::DeviceEvent(DeviceEvent::PointerMoved {
                    delta_x: dx,
                    delta_y: dy,
                    delta_x_unaccel: dx_unaccel,
                    delta_y_unaccel: dy_unaccel,
                }));
            },
        }
        proof {
            assert(final(queue)@ =~= old(queue)@ + step.1);
        }
    }
}

/// The pointer machine never announces a configuration change or a
/// repaint: `Paint`, `Resized`, and `NewScaleFactor` come only from the
/// event loop's sweep, so nothing it emits can defeat redraw coalescing.
pub proof fn lemma_ptr_emits_no_configuration_events(s: PointerState, input: PointerInput)
    ensures
        forall|k: int|
            0 <= k < ptr_step(s, input).1.len() ==> !announces_configuration(
                #[trigger] ptr_step(s, input).1[k],
            ),
{
}

impl Default for PointerState {
    /// Same as [`PointerState::new`].
    fn default() -> (s: PointerState)
        ensures
            s == (PointerState { focused_window: None }),
    {
        PointerState::new()
    }
}

/// The pointer machine never emits keyboard-focus events, so keyboard
/// focus exclusivity and pointer focus exclusivity hold independently
/// of how the two machines' events interleave in the queue.
pub proof fn lemma_ptr_emits_no_keyboard_focus(s: PointerState, input: PointerInput)
    ensures
        forall|k: int|
            0 <= k < ptr_step(s, input).1.len() ==> !((#[trigger] ptr_step(s, input).1[k]) matches
                WaywinEvent::WindowEvent { event, .. } && event is Focus),
{
}

/// The pointer-focus transitions contained in an event sequence, in
/// order: `(window, gained)` for each `PointerEntered`/`PointerLeft`.
pub open spec fn ptr_focus_changes(es: Seq<WaywinEvent>) -> Seq<(usize, bool)>
    decreases es.len(),
{
    if es.len() == 0 {
        Seq::empty()
    } else {
        let rest = ptr_focus_changes(es.drop_first());
        match es[0] {
            WaywinEvent::WindowEvent { event: Event::PointerEntered, window_id } => seq![
                (window_id, true),
            ] + rest,
            WaywinEvent::WindowEvent { event: Event::PointerLeft, window_id } => seq![
                (window_id, false),
            ] + rest,
            _ => rest,
        }
    }
}

/// The machine run over a whole input sequence: the final state and all
/// events emitted along the way, in order.
pub open spec fn ptr_run(s: PointerState, inputs: Seq<PointerInput>) -> (
    PointerState,
    Seq<WaywinEvent>,
)
    decreases inputs.len(),
{
    if inputs.len() == 0 {
        (s, Seq::empty())
    } else {
        let step = ptr_step(s, inputs[0]);
        let rest = ptr_run(step.0, inputs.drop_first());
        (rest.0, step.1 + rest.1)
    }
}

proof fn lemma_ptr_focus_changes_concat(a: Seq<WaywinEvent>, b: Seq<WaywinEvent>)
    ensures
        ptr_focus_changes(a + b) == ptr_focus_changes(a) + ptr_focus_changes(b),
    decreases a.len(),
{
    if a.len() == 0 {
        assert(a + b =~= b);
        assert(ptr_focus_changes(a) + ptr_focus_changes(b) =~= ptr_focus_changes(b));
    } else {
        lemma_ptr_focus_changes_concat(a.drop_first(), b);
        assert((a + b).drop_first() =~= a.drop_first() + b);
        assert((a + b)[0] == a[0]);
        assert(ptr_focus_changes(a + b) =~= ptr_focus_changes(a) + ptr_focus_changes(b));
    }
}

/// One step emits a valid focus trace, and leaves the machine's focus
/// field at the trace's end holder.
proof fn lemma_ptr_step_focus(s: PointerState, input: PointerInput)
    ensures
        focus_trace_ok(ptr_focus_changes(ptr_step(s, input).1), s.focused_window),
        trace_end(ptr_focus_changes(ptr_step(s, input).1), s.focused_window) == ptr_step(
            s,
            input,
        ).0.focused_window,
{
    reveal_with_fuel(ptr_focus_changes, 5);
    reveal_with_fuel(focus_trace_ok, 5);
    reveal_with_fuel(trace_end, 5);
    let step = ptr_step(s, input);
    let evs = step.1;
    match input {
        PointerInput::Enter { window_id, x, y } => {
            match s.focused_window {
                Some(prev) => {
                    assert(evs.drop_first() =~= seq![
                        wevent(Event::PointerEntered, window_id),
                        wevent(Event::PointerMoved(x, y), window_id),
                    ]);
                    assert(evs.drop_first().drop_first() =~= seq![
                        wevent(Event::PointerMoved(x, y), window_id),
                    ]);
                    assert(evs.drop_first().drop_first().drop_first()
                        =~= Seq::<WaywinEvent>::empty());
                    let t = ptr_focus_changes(evs);
                    assert(t =~= seq![(prev, false), (window_id, true)]);
                    assert(t.drop_first() =~= seq![(window_id, true)]);
                    assert(t.drop_first().drop_first() =~= Seq::<(usize, bool)>::empty());
                },
                None => {
                    assert(evs.drop_first() =~= seq![wevent(Event::PointerMoved(x, y), window_id)]);
                    assert(evs.drop_first().drop_first() =~= Seq::<WaywinEvent>::empty());
                    let t = ptr_focus_changes(evs);
                    assert(t =~= seq![(window_id, true)]);
                    assert(t.drop_first() =~= Seq::<(usize, bool)>::empty());
                },
            }
        },
        PointerInput::Leave { window_id } => {
            if s.focused_window == Some(window_id) {
                assert(evs.drop_first() =~= Seq::<WaywinEvent>::empty());
                let t = ptr_focus_changes(evs);
                assert(t =~= seq![(window_id, false)]);
                assert(t.drop_first() =~= Seq::<(usize, bool)>::empty());
            } else {
                assert(ptr_focus_changes(evs) =~= Seq::<(usize, bool)>::empty());
            }
        },
        _ => {
            if evs.len() != 0 {
                assert(evs.drop_first() =~= Seq::<WaywinEvent>::empty());
            }
            assert(ptr_focus_changes(evs) =~= Seq::<(usize, bool)>::empty());
        },
    }
}

/// Pointer focus is exclusive: over any input sequence, the emitted
/// `PointerEntered`/`PointerLeft` events form a valid focus history — a
/// second `PointerEntered` is never delivered without an intervening
/// `PointerLeft` for the previous holder, so at most one window holds
/// pointer focus at any point of the delivered stream.
pub proof fn lemma_pointer_focus_exclusive(s: PointerState, inputs: Seq<PointerInput>)
    ensures
        focus_trace_ok(ptr_focus_changes(ptr_run(s, inputs).1), s.focused_window),
        trace_end(ptr_focus_changes(ptr_run(s, inputs).1), s.focused_window) == ptr_run(
            s,
            inputs,
        ).0.focused_window,
    decreases inputs.len(),
{
    if inputs.len() == 0 {
        reveal_with_fuel(ptr_focus_changes, 1);
        reveal_with_fuel(focus_trace_ok, 1);
        reveal_with_fuel(trace_end, 1);
    } else {
        let step = ptr_step(s, inputs[0]);
        lemma_ptr_step_focus(s, inputs[0]);
        lemma_pointer_focus_exclusive(step.0, inputs.drop_first());
        lemma_ptr_focus_changes_concat(step.1, ptr_run(step.0, inputs.drop_first()).1);
        lemma_trace_concat(
            ptr_focus_changes(step.1),
            ptr_focus_changes(ptr_run(step.0, inputs.drop_first()).1),
            s.focused_window,
        );
    }
}

} // verus!
