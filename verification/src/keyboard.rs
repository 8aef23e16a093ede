//! The keyboard state machine: focus tracking and the autorepeat
//! schedule.
//!
//! The machine consumes translated native keyboard notifications and
//! appends normalized events to the shared queue. Timer work is handed
//! back to the caller as data: the machine says when to arm or cancel the
//! one-shot repeat timer, the runner performs it and feeds the firing back
//! in as [`KeyboardInput::RepeatTimer`].
use crate::event::{announces_configuration, wevent, Event, WaywinEvent};
use crate::trace::{focus_trace_ok, lemma_trace_concat, trace_end};
use vstd::prelude::*;

verus! {

/// The compositor-advertised autorepeat parameters, in milliseconds.
#[derive(Debug, Clone, Copy, PartialEq, Eq, Structural)]
pub struct RepeatInfo {
    /// Delay before the first repeat.
    pub delay: u64,
    /// Interval between subsequent repeats.
    pub repeat: u64,
}

/// The active autorepeat schedule: which key repeats, for which window,
/// and the exact event to re-emit on every firing.
#[derive(Debug, Clone)]
pub struct RepeatState {
    /// Scancode of the repeating key.
    pub key: u32,
    /// The window that was focused when the key went down.
    pub window_id: usize,
    /// The key-down event re-emitted on each firing.
    pub event: Event,
}

/// What the caller must do with the one-shot repeat timer after a step.
#[derive(Debug, Clone, Copy, PartialEq, Eq, Structural)]
pub enum TimerAction {
    /// Leave the timer as it is.
    Keep,
    /// Cancel the armed timer.
    Cancel,
    /// Arm the timer (replacing any armed one) to fire once after this
    /// many milliseconds.
    Arm(u64),
}

/// One translated native keyboard notification.
pub enum KeyboardInput {
    /// A keymap arrived; `ok` says whether it could be compiled.
    Keymap { ok: bool },
    /// The keyboard entered a window. Gaining focus destroys any
    /// standing repeat schedule: a refocus never carries repeats over.
    Enter { window_id: usize },
    /// The keyboard left a window.
    Leave { window_id: usize },
    /// A key went down. `event` is the translated key-press event,
    /// `repeats` whether the keymap marks the key as repeatable.
    KeyDown { scancode: u32, event: Event, repeats: bool },
    /// A key went up. `event` is the translated key-release event.
    KeyUp { scancode: u32, event: Event },
    /// The modifier mask changed. Modifier updates never themselves
    /// produce an event; they only shape the translation of the next
    /// key transition, which the caller's keymap state performs.
    Modifiers { mods_depressed: u32, mods_latched: u32, mods_locked: u32, group: u32 },
    /// The compositor changed the autorepeat parameters; `rate` is in
    /// repeats per second, 0 disables repeat globally.
    RepeatInfo { rate: u32, delay: u32 },
    /// The armed repeat timer fired.
    RepeatTimer,
}

/// The keyboard state machine.
pub struct KeyboardState {
    /// Whether a compiled keymap is installed; key events are dropped
    /// until one is.
    pub keymap_ready: bool,
    /// The advertised autorepeat parameters, none while repeat is
    /// disabled globally.
    pub repeat_info: Option<RepeatInfo>,
    /// The active autorepeat schedule, if a repeatable key is held.
    pub repeat_state: Option<RepeatState>,
    /// The window holding keyboard focus, if any.
    pub focused_window: Option<usize>,
}

/// One step of the keyboard machine: the successor state, the events
/// appended to the queue, and what to do with the repeat timer.
pub open spec fn kb_step(s: KeyboardState, input: KeyboardInput) -> (
    KeyboardState,
    Seq<WaywinEvent>,
    TimerAction,
) {
    let cancel_if_armed = if s.repeat_state is Some {
        TimerAction::Cancel
    } else {
        TimerAction::Keep
    };
    match input {
        KeyboardInput::Keymap { ok } => (
            KeyboardState { keymap_ready: ok, ..s },
            Seq::empty(),
            TimerAction::Keep,
        ),
        KeyboardInput::Enter { window_id } => (
            KeyboardState { focused_window: Some(window_id), repeat_state: None, ..s },
            match s.focused_window {
                Some(prev) => seq![
                    wevent(Event::Focus(false), prev),
                    wevent(Event::Focus(true), window_id),
                ],
                None => seq![wevent(Event::Focus(true), window_id)],
            },
            cancel_if_armed,
        ),
        KeyboardInput::Leave { window_id } => {
            let s1 = KeyboardState { repeat_state: None, ..s };
            if s.focused_window == Some(window_id) {
                (
                    KeyboardState { focused_window: None, ..s1 },
                    seq![wevent(Event::Focus(false), window_id)],
                    cancel_if_armed,
                )
            } else {
                (s1, Seq::empty(), cancel_if_armed)
            }
        },
        KeyboardInput::KeyDown { scancode, event, repeats } => {
            let s1 = KeyboardState { repeat_state: None, ..s };
            match s.focused_window {
                None => (s1, Seq::empty(), cancel_if_armed),
                Some(id) => {
                    if !s.keymap_ready {
                        (s1, Seq::empty(), cancel_if_armed)
                    } else if repeats && s.repeat_info is Some {
                        (
                            KeyboardState {
                                repeat_state: Some(
                                    RepeatState { key: scancode, window_id: id, event },
                                ),
                                ..s1
                            },
                            seq![wevent(event, id)],
                            TimerAction::Arm(s.repeat_info->0.delay),
                        )
                    } else {
                        (s1, seq![wevent(event, id)], cancel_if_armed)
                    }
                },
            }
        },
        KeyboardInput::KeyUp { scancode, event } => {
            match s.focused_window {
                None => (s, Seq::empty(), TimerAction::Keep),
                Some(id) => {
                    let cancels = s.repeat_state matches Some(rs) && rs.key == scancode;
                    let s1 = if cancels {
                        KeyboardState { repeat_state: None, ..s }
                    } else {
                        s
                    };
                    let events = if s.keymap_ready {
                        seq![wevent(event, id)]
                    } else {
                        Seq::empty()
                    };
                    (s1, events, if cancels { TimerAction::Cancel } else { TimerAction::Keep })
                },
            }
        },
        KeyboardInput::Modifiers { .. } => (s, Seq::empty(), TimerAction::Keep),
        KeyboardInput::RepeatInfo { rate, delay } => {
            if rate == 0 {
                (
                    KeyboardState { repeat_info: None, repeat_state: None, ..s },
                    Seq::empty(),
                    cancel_if_armed,
                )
            } else {
                (
                    KeyboardState {
                        repeat_info: Some(
                            RepeatInfo { delay: delay as u64, repeat: (1000u64 / rate as u64) },
                        ),
                        ..s
                    },
                    Seq::empty(),
                    TimerAction::Keep,
                )
            }
        },
        KeyboardInput::RepeatTimer => {
            match s.repeat_state {
                None => (s, Seq::empty(), TimerAction::Keep),
                Some(rs) => {
                    if s.focused_window == Some(rs.window_id) {
                        match s.repeat_info {
                            Some(ri) => (
                                s,
                                seq![wevent(rs.event, rs.window_id)],
                                TimerAction::Arm(ri.repeat),
                            ),
                            None => (
                                KeyboardState { repeat_state: None, ..s },
                                Seq::empty(),
                                TimerAction::Cancel,
                            ),
                        }
                    } else {
                        (
                            KeyboardState { repeat_state: None, ..s },
                            Seq::empty(),
                            TimerAction::Cancel,
                        )
                    }
                },
            }
        },
    }
}

impl Default for KeyboardState {
    /// Same as [`KeyboardState::new`].
    fn default() -> (s: KeyboardState)
        ensures
            s == (KeyboardState {
                keymap_ready: false,
                repeat_info: None,
                repeat_state: None,
                focused_window: None,
            }),
    {
        KeyboardState::new()
    }
}

/// A native key notification carries a key event as its payload: presses
/// carry a press, releases a release. The machine forwards these payloads
/// verbatim, so the focus-exclusivity law asks for this much shape.
pub open spec fn kb_input_wf(input: KeyboardInput) -> bool {
    match input {
        KeyboardInput::KeyDown { event, .. } => event matches Event::Key { down: true, .. },
        KeyboardInput::KeyUp { event, .. } => event matches Event::Key { down: false, .. },
        _ => true,
    }
}

impl KeyboardState {
    /// A schedule only exists for the focused window, only while repeat
    /// is enabled, and re-emits a key press.
    pub open spec fn wf(self) -> bool {
        self.repeat_state matches Some(rs) ==> self.focused_window == Some(rs.window_id)
            && self.repeat_info is Some
            && rs.event matches Event::Key { down: true, .. }
    }

    /// A fresh keyboard: no keymap, no focus, no repeat.
    pub fn new() -> (s: KeyboardState)
        ensures
            s == (KeyboardState {
                keymap_ready: false,
                repeat_info: None,
                repeat_state: None,
                focused_window: None,
            }),
    {
        KeyboardState {
            keymap_ready: false,
            repeat_info: None,
            repeat_state: None,
            focused_window: None,
        }
    }

    /// Feed one translated notification through the machine, appending
    /// the normalized events it produces to `queue`.
    pub fn process(&mut self, input: KeyboardInput, queue: &mut Vec<WaywinEvent>) -> (t:
        TimerAction)
        ensures
            ({
                let (s2, evs, act) = kb_step(*old(self), input);
                &&& *final(self) == s2
                &&& final(queue)@ == old(queue)@ + evs
                &&& t == act
            }),
    {
        let ghost step = kb_step(*self, input);
        let had_schedule = self.repeat_state.is_some();
        let cancel_if_armed = if had_schedule {
            TimerAction::Cancel
        } else {
            TimerAction::Keep
        };
        let action = match input {
            KeyboardInput::Keymap { ok } => {
                self.keymap_ready = ok;
                TimerAction::Keep
            },
            KeyboardInput::Enter { window_id } => {
                if let Some(prev) = self.focused_window {
                    queue.push(WaywinEvent::WindowEvent {
                        event: Event::Focus(false),
                        window_id: prev,
                    });
                }
                self.focused_window = Some(window_id);
                self.repeat_state = None;
                queue.push(WaywinEvent::WindowEvent { event: Event::Focus(true), window_id });
                cancel_if_armed
            },
            KeyboardInput::Leave { window_id } => {
                self.repeat_state = None;
                if self.focused_window == Some(window_id) {
                    self.focused_window = None;
                    queue.push(WaywinEvent::WindowEvent { event: Event::Focus(false), window_id });
                }
                cancel_if_armed
            },
            KeyboardInput::KeyDown { scancode, event, repeats } => {
                self.repeat_state = None;
                match self.focused_window {
                    None => cancel_if_armed,
                    Some(id) => {
                        if !self.keymap_ready {
                            cancel_if_armed
                        } else {
                            queue.push(WaywinEvent::WindowEvent {
                                event: event.duplicate(),
                                window_id: id,
                            });
                            let mut arm: Option<u64> = None;
                            if repeats {
                                if let Some(ri) = self.repeat_info {
                                    arm = Some(ri.delay);
                                }
                            }
                            match arm {
                                Some(delay) => {
                                    self.repeat_state = Some(
                                        RepeatState { key: scancode, window_id: id, event },
                                    );
                                    TimerAction::Arm(delay)
                                },
                                None => cancel_if_armed,
                            }
                        }
                    },
                }
            },
            KeyboardInput::KeyUp { scancode, event } => {
                match self.focused_window {
                    None => TimerAction::Keep,
                    Some(id) => {
                        let cancels = match &self.repeat_state {
                            Some(rs) => rs.key == scancode,
                            None => false,
                        };
                        if cancels {
                            self.repeat_state = None;
                        }
                        if self.keymap_ready {
                            queue.push(WaywinEvent::WindowEvent { event, window_id: id });
                        }
                        if cancels {
                            TimerAction::Cancel
                        } else {
                            TimerAction::Keep
                        }
                    },
                }
            },
            KeyboardInput::Modifiers { .. } => TimerAction::Keep,
            KeyboardInput::RepeatInfo { rate, delay } => {
                if rate == 0 {
                    self.repeat_info = None;
                    self.repeat_state = None;
                    cancel_if_armed
                } else {
                    self.repeat_info = Some(
                        RepeatInfo { delay: delay as u64, repeat: 1000u64 / rate as u64 },
                    );
                    TimerAction::Keep
                }
            },
            KeyboardInput::RepeatTimer => {
                let focused = self.focused_window;
                match &self.repeat_state {
                    None => TimerAction::Keep,
                    Some(rs) => {
                        if focused == Some(rs.window_id) {
                            match self.repeat_info {
                                Some(ri) => {
                                    queue.push(WaywinEvent::WindowEvent {
                                        event: rs.event.duplicate(),
                                        window_id: rs.window_id,
                                    });
                                    TimerAction::Arm(ri.repeat)
                                },
                                None => {
                                    self.repeat_state = None;
                                    TimerAction::Cancel
                                },
                            }
                        } else {
                            self.repeat_state = None;
                            TimerAction::Cancel
                        }
                    },
                }
            },
        };
        proof {
            assert(final(queue)@ =~= old(queue)@ + step.1);
        }
        action
    }
}

/// Every reachable keyboard state is well formed: one step from a well
/// formed state lands in a well formed state.
pub proof fn lemma_kb_wf_preserved(s: KeyboardState, input: KeyboardInput)
    requires
        s.wf(),
        kb_input_wf(input),
    ensures
        kb_step(s, input).0.wf(),
{
}

/// The keyboard machine never announces a configuration change or a
/// repaint: `Paint`, `Resized`, and `NewScaleFactor` come only from the
/// event loop's sweep, so nothing it emits can defeat redraw coalescing.
pub proof fn lemma_kb_emits_no_configuration_events(s: KeyboardState, input: KeyboardInput)
    requires
        s.wf(),
        kb_input_wf(input),
    ensures
        forall|k: int|
            0 <= k < kb_step(s, input).1.len() ==> !announces_configuration(
                #[trigger] kb_step(s, input).1[k],
            ),
{
}

/// The keyboard machine never emits pointer-focus events, so keyboard
/// focus exclusivity and pointer focus exclusivity hold independently
/// of how the two machines' events interleave in the queue.
pub proof fn lemma_kb_emits_no_pointer_focus(s: KeyboardState, input: KeyboardInput)
    requires
        s.wf(),
        kb_input_wf(input),
    ensures
        forall|k: int|
            0 <= k < kb_step(s, input).1.len() ==> !((#[trigger] kb_step(s, input).1[k]) matches
                WaywinEvent::WindowEvent { event, .. } && (event is PointerEntered
                || event is PointerLeft)),
{
}

/// The keyboard-focus transitions contained in an event sequence, in
/// order: `(window, gained)` for each `Focus` event.
pub open spec fn kb_focus_changes(es: Seq<WaywinEvent>) -> Seq<(usize, bool)>
    decreases es.len(),
{
    if es.len() == 0 {
        Seq::empty()
    } else {
        let rest = kb_focus_changes(es.drop_first());
        match es[0] {
            WaywinEvent::WindowEvent { event: Event::Focus(gained), window_id } => seq![
                (window_id, gained),
            ] + rest,
            _ => rest,
        }
    }
}

proof fn lemma_kb_focus_changes_concat(a: Seq<WaywinEvent>, b: Seq<WaywinEvent>)
    ensures
        kb_focus_changes(a + b) == kb_focus_changes(a) + kb_focus_changes(b),
    decreases a.len(),
{
    if a.len() == 0 {
        assert(a + b =~= b);
        assert(kb_focus_changes(a) + kb_focus_changes(b) =~= kb_focus_changes(b));
    } else {
        lemma_kb_focus_changes_concat(a.drop_first(), b);
        assert((a + b).drop_first() =~= a.drop_first() + b);
        assert((a + b)[0] == a[0]);
        match a[0] {
            WaywinEvent::WindowEvent { event: Event::Focus(gained), window_id } => {
                assert(kb_focus_changes(a + b) =~= kb_focus_changes(a) + kb_focus_changes(b));
            },
            _ => {},
        }
    }
}

/// The machine run over a whole input sequence: the final state and all
/// events emitted along the way, in order.
pub open spec fn kb_run(s: KeyboardState, inputs: Seq<KeyboardInput>) -> (
    KeyboardState,
    Seq<WaywinEvent>,
)
    decreases inputs.len(),
{
    if inputs.len() == 0 {
        (s, Seq::empty())
    } else {
        let step = kb_step(s, inputs[0]);
        let rest = kb_run(step.0, inputs.drop_first());
        (rest.0, step.1 + rest.1)
    }
}

proof fn lemma_changes_nonfocus_one(e: Event, id: usize)
    requires
        !(e is Focus),
    ensures
        kb_focus_changes(seq![wevent(e, id)]) == Seq::<(usize, bool)>::empty(),
{
    reveal_with_fuel(kb_focus_changes, 3);
    let evs = seq![wevent(e, id)];
    assert(evs.drop_first() =~= Seq::<WaywinEvent>::empty());
    assert(kb_focus_changes(evs) =~= Seq::<(usize, bool)>::empty());
}

proof fn lemma_changes_focus_one(gained: bool, id: usize)
    ensures
        kb_focus_changes(seq![wevent(Event::Focus(gained), id)]) == seq![(id, gained)],
{
    reveal_with_fuel(kb_focus_changes, 3);
    let evs = seq![wevent(Event::Focus(gained), id)];
    assert(evs.drop_first() =~= Seq::<WaywinEvent>::empty());
    assert(kb_focus_changes(evs) =~= seq![(id, gained)]);
}

proof fn lemma_trace_one(id: usize, gained: bool, holder: Option<usize>)
    requires
        gained ==> holder is None,
        !gained ==> holder == Some(id),
    ensures
        focus_trace_ok(seq![(id, gained)], holder),
        trace_end(seq![(id, gained)], holder) == if gained {
            Some(id)
        } else {
            Option::<usize>::None
        },
{
    reveal_with_fuel(focus_trace_ok, 3);
    reveal_with_fuel(trace_end, 3);
    let t = seq![(id, gained)];
    assert(t.drop_first() =~= Seq::<(usize, bool)>::empty());
}

/// One step emits a valid focus trace, and leaves the machine's focus
/// field at the trace's end holder.
proof fn lemma_kb_step_focus(s: KeyboardState, input: KeyboardInput)
    requires
        s.wf(),
        kb_input_wf(input),
    ensures
        focus_trace_ok(kb_focus_changes(kb_step(s, input).1), s.focused_window),
        trace_end(kb_focus_changes(kb_step(s, input).1), s.focused_window) == kb_step(
            s,
            input,
        ).0.focused_window,
{
    let step = kb_step(s, input);
    let evs = step.1;
    let h = s.focused_window;
    match input {
        KeyboardInput::Enter { window_id } => {
            match h {
                Some(prev) => {
                    assert(evs =~= seq![
                        wevent(Event::Focus(false), prev),
                        wevent(Event::Focus(true), window_id),
                    ]);
                    assert(evs.drop_first() =~= seq![wevent(Event::Focus(true), window_id)]);
                    lemma_changes_focus_one(true, window_id);
                    let t = kb_focus_changes(evs);
                    assert(t =~= seq![(prev, false), (window_id, true)]);
                    assert(t.drop_first() =~= seq![(window_id, true)]);
                    lemma_trace_one(window_id, true, None);
                },
                None => {
                    lemma_changes_focus_one(true, window_id);
                    assert(evs =~= seq![wevent(Event::Focus(true), window_id)]);
                    lemma_trace_one(window_id, true, None);
                },
            }
        },
        KeyboardInput::Leave { window_id } => {
            if h == Some(window_id) {
                assert(evs =~= seq![wevent(Event::Focus(false), window_id)]);
                lemma_changes_focus_one(false, window_id);
                lemma_trace_one(window_id, false, h);
            } else {
                assert(evs =~= Seq::<WaywinEvent>::empty());
                assert(kb_focus_changes(evs) =~= Seq::<(usize, bool)>::empty());
            }
        },
        KeyboardInput::KeyDown { scancode, event, repeats } => {
            if h is Some && s.keymap_ready {
                assert(evs =~= seq![wevent(event, h->0)]);
                lemma_changes_nonfocus_one(event, h->0);
            } else {
                assert(evs =~= Seq::<WaywinEvent>::empty());
                assert(kb_focus_changes(evs) =~= Seq::<(usize, bool)>::empty());
            }
        },
        KeyboardInput::KeyUp { scancode, event } => {
            if h is Some && s.keymap_ready {
                assert(evs =~= seq![wevent(event, h->0)]);
                lemma_changes_nonfocus_one(event, h->0);
            } else {
                assert(evs =~= Seq::<WaywinEvent>::empty());
                assert(kb_focus_changes(evs) =~= Seq::<(usize, bool)>::empty());
            }
        },
        KeyboardInput::RepeatTimer => {
            match s.repeat_state {
                Some(rs) => {
                    if h == Some(rs.window_id) && s.repeat_info is Some {
                        assert(evs =~= seq![wevent(rs.event, rs.window_id)]);
                        lemma_changes_nonfocus_one(rs.event, rs.window_id);
                    } else {
                        assert(evs =~= Seq::<WaywinEvent>::empty());
                        assert(kb_focus_changes(evs) =~= Seq::<(usize, bool)>::empty());
                    }
                },
                None => {
                    assert(evs =~= Seq::<WaywinEvent>::empty());
                    assert(kb_focus_changes(evs) =~= Seq::<(usize, bool)>::empty());
                },
            }
        },
        _ => {
            assert(evs =~= Seq::<WaywinEvent>::empty());
            assert(kb_focus_changes(evs) =~= Seq::<(usize, bool)>::empty());
        },
    }
}

/// Keyboard focus is exclusive: over any input sequence, the emitted
/// `Focus` events form a valid focus history — focus is only ever gained
/// while no window holds it, and only its holder loses it, so at most one
/// window holds keyboard focus at any point of the delivered stream.
pub proof fn lemma_keyboard_focus_exclusive(s: KeyboardState, inputs: Seq<KeyboardInput>)
    requires
        s.wf(),
        forall|i: int| 0 <= i < inputs.len() ==> kb_input_wf(#[trigger] inputs[i]),
    ensures
        focus_trace_ok(kb_focus_changes(kb_run(s, inputs).1), s.focused_window),
        trace_end(kb_focus_changes(kb_run(s, inputs).1), s.focused_window) == kb_run(
            s,
            inputs,
        ).0.focused_window,
        kb_run(s, inputs).0.wf(),
    decreases inputs.len(),
{
    if inputs.len() == 0 {
        reveal_with_fuel(kb_focus_changes, 1);
        reveal_with_fuel(focus_trace_ok, 1);
        reveal_with_fuel(trace_end, 1);
    } else {
        let step = kb_step(s, inputs[0]);
        lemma_kb_step_focus(s, inputs[0]);
        lemma_kb_wf_preserved(s, inputs[0]);
        assert(forall|i: int|
            0 <= i < inputs.drop_first().len() ==> kb_input_wf(
                #[trigger] inputs.drop_first()[i],
            ));
        lemma_keyboard_focus_exclusive(step.0, inputs.drop_first());
        lemma_kb_focus_changes_concat(step.1, kb_run(step.0, inputs.drop_first()).1);
        lemma_trace_concat(
            kb_focus_changes(step.1),
            kb_focus_changes(kb_run(step.0, inputs.drop_first()).1),
            s.focused_window,
        );
    }
}

/// Releasing one key never cancels another key's repeat: after A down
/// (repeatable), B down, A up, the schedule is exactly what B's press
/// left behind, and a timer firing after that re-emits only B's event —
/// no further A presses appear.
pub proof fn lemma_repeat_cancellation(
    s: KeyboardState,
    a_scan: u32,
    a_down: Event,
    a_up: Event,
    b_scan: u32,
    b_down: Event,
    b_repeats: bool,
)
    requires
        s.wf(),
        s.keymap_ready,
        s.focused_window is Some,
        s.repeat_info is Some,
        a_scan != b_scan,
    ensures
        ({
            let id = s.focused_window->0;
            let s1 = kb_step(s, KeyboardInput::KeyDown { scancode: a_scan, event: a_down, repeats: true }).0;
            let s2 = kb_step(s1, KeyboardInput::KeyDown { scancode: b_scan, event: b_down, repeats: b_repeats }).0;
            let step3 = kb_step(s2, KeyboardInput::KeyUp { scancode: a_scan, event: a_up });
            let fire = kb_step(step3.0, KeyboardInput::RepeatTimer);
            // A's press armed its schedule, B's press replaced it.
            &&& s1.repeat_state == Some(RepeatState { key: a_scan, window_id: id, event: a_down })
            &&& s2.repeat_state == if b_repeats {
                Some(RepeatState { key: b_scan, window_id: id, event: b_down })
            } else {
                None
            }
            // A's release only emits A's release event and leaves B's
            // schedule untouched.
            &&& step3.0.repeat_state == s2.repeat_state
            &&& step3.1 == seq![wevent(a_up, id)]
            &&& step3.2 == TimerAction::Keep
            // A later firing re-emits B's press, never A's.
            &&& fire.1 == if b_repeats {
                seq![wevent(b_down, id)]
            } else {
                Seq::<WaywinEvent>::empty()
            }
        }),
{
}

} // verus!
