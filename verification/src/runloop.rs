//! The event-loop core: the per-iteration sweep over the window
//! registry, queue hygiene for dropped windows, and the run/stop control.
//!
//! Each iteration the runner first lets the native source dispatch its
//! callbacks (which feed the keyboard, pointer, and window machines and
//! append to the queue), then prunes events addressed to dropped windows,
//! sweeps the registry to announce coalesced configuration changes and
//! owed repaints, and finally delivers the queue in arrival order,
//! checking the continue flag after every delivery.
use crate::event::{wevent, Event, WaywinEvent};
use crate::window::{phys_len, WindowState};
use vstd::prelude::*;

verus! {

/// One registry entry: a window's state machine and whether the window
/// is still alive. The runner holds only weak references to windows, so
/// an entry may outlive its window by one iteration; `alive` records
/// whether the reference still resolved this iteration.
#[derive(Debug, Clone, Copy)]
pub struct WindowSlot {
    pub alive: bool,
    pub win: WindowState,
}

/// Whether the sweep owes the window a `NewScaleFactor` event.
pub open spec fn sweep_scaled(w: WindowState) -> bool {
    w.announced.scale120 != w.committed.scale120
}

/// Whether the sweep owes the window a `Resized` event: its logical or
/// its physical size changed since the last announcement.
pub open spec fn sweep_resized(w: WindowState) -> bool {
    ||| w.announced.width != w.committed.width
    ||| w.announced.height != w.committed.height
    ||| phys_len(w.announced.width as int, w.announced.scale120 as int) != phys_len(
        w.committed.width as int,
        w.committed.scale120 as int,
    )
    ||| phys_len(w.announced.height as int, w.announced.scale120 as int) != phys_len(
        w.committed.height as int,
        w.committed.scale120 as int,
    )
}

/// Whether the sweep owes the window a `Paint` event.
pub open spec fn sweep_paint(w: WindowState) -> bool {
    w.redraw || sweep_resized(w) || sweep_scaled(w)
}

/// One window's share of the sweep: the configuration deltas still to be
/// announced, then the owed repaint, with the announced snapshot caught
/// up and the redraw flag drained.
pub open spec fn sweep_slot(w: WindowState) -> (WindowState, Seq<WaywinEvent>) {
    let events = (if sweep_scaled(w) {
        seq![wevent(Event::NewScaleFactor, w.id)]
    } else {
        Seq::empty()
    }) + (if sweep_resized(w) {
        seq![wevent(Event::Resized, w.id)]
    } else {
        Seq::empty()
    }) + (if sweep_paint(w) {
        seq![wevent(Event::Paint, w.id)]
    } else {
        Seq::empty()
    });
    (WindowState { announced: w.committed, redraw: false, ..w }, events)
}

/// The sweep over the whole registry: dead entries are removed without a
/// trace, live ones are swept in order.
pub open spec fn sweep_slots(slots: Seq<WindowSlot>) -> (Seq<WindowSlot>, Seq<WaywinEvent>)
    decreases slots.len(),
{
    if slots.len() == 0 {
        (Seq::empty(), Seq::empty())
    } else {
        let rest = sweep_slots(slots.drop_first());
        if slots[0].alive {
            let head = sweep_slot(slots[0].win);
            (seq![WindowSlot { alive: true, win: head.0 }] + rest.0, head.1 + rest.1)
        } else {
            rest
        }
    }
}

/// Whether some live registry entry is the window `id`.
pub open spec fn is_live(slots: Seq<WindowSlot>, id: usize) -> bool {
    exists|i: int| 0 <= i < slots.len() && (#[trigger] slots[i]).alive && slots[i].win.id == id
}

/// Whether an event survives the prune: window events only if their
/// window is still live, device events always.
pub open spec fn event_kept(e: WaywinEvent, slots: Seq<WindowSlot>) -> bool {
    match e {
        WaywinEvent::WindowEvent { window_id, .. } => is_live(slots, window_id),
        WaywinEvent::DeviceEvent(_) => true,
    }
}

/// The queue with all events addressed to dropped windows removed.
pub open spec fn prune_events(q: Seq<WaywinEvent>, slots: Seq<WindowSlot>) -> Seq<WaywinEvent>
    decreases q.len(),
{
    if q.len() == 0 {
        Seq::empty()
    } else {
        let rest = prune_events(q.drop_first(), slots);
        if event_kept(q[0], slots) {
            seq![q[0]] + rest
        } else {
            rest
        }
    }
}

/// Sweep one live window, appending its owed events to the queue.
pub fn sweep_one(w: &mut WindowState, queue: &mut Vec<WaywinEvent>)
    requires
        old(w).wf(),
    ensures
        ({
            let (w2, evs) = sweep_slot(*old(w));
            &&& *final(w) == w2
            &&& final(queue)@ == old(queue)@ + evs
        }),
{
    let ghost step = sweep_slot(*w);
    let scaled = w.announced.scale120 != w.committed.scale120;
    let announced_phys = w.announced.physical_size();
    let committed_phys = w.committed.physical_size();
    let resized = w.announced.width != w.committed.width || w.announced.height
        != w.committed.height || announced_phys.0 != committed_phys.0 || announced_phys.1
        != committed_phys.1;
    let redraw = w.reset_redraw();
    w.announced = w.committed;
    if scaled {
        queue.push(WaywinEvent::WindowEvent { event: Event::NewScaleFactor, window_id: w.id });
    }
    if resized {
        queue.push(WaywinEvent::WindowEvent { event: Event::Resized, window_id: w.id });
    }
    if redraw || resized || scaled {
        queue.push(WaywinEvent::WindowEvent { event: Event::Paint, window_id: w.id });
    }
    proof {
        assert(final(queue)@ =~= old(queue)@ + step.1);
    }
}

proof fn lemma_sweep_slots_snoc(slots: Seq<WindowSlot>, x: WindowSlot)
    ensures
        sweep_slots(slots.push(x)).0 == sweep_slots(slots).0 + (if x.alive {
            seq![WindowSlot { alive: true, win: sweep_slot(x.win).0 }]
        } else {
            Seq::empty()
        }),
        sweep_slots(slots.push(x)).1 == sweep_slots(slots).1 + (if x.alive {
            sweep_slot(x.win).1
        } else {
            Seq::empty()
        }),
    decreases slots.len(),
{
    reveal_with_fuel(sweep_slots, 2);
    if slots.len() == 0 {
        assert(slots.push(x).drop_first() =~= Seq::<WindowSlot>::empty());
        assert(sweep_slots(slots.push(x)).0 =~= sweep_slots(slots).0 + (if x.alive {
            seq![WindowSlot { alive: true, win: sweep_slot(x.win).0 }]
        } else {
            Seq::<WindowSlot>::empty()
        }));
        assert(sweep_slots(slots.push(x)).1 =~= sweep_slots(slots).1 + (if x.alive {
            sweep_slot(x.win).1
        } else {
            Seq::<WaywinEvent>::empty()
        }));
    } else {
        lemma_sweep_slots_snoc(slots.drop_first(), x);
        assert(slots.push(x).drop_first() =~= slots.drop_first().push(x));
        assert(slots.push(x)[0] == slots[0]);
        assert(sweep_slots(slots.push(x)).0 =~= sweep_slots(slots).0 + (if x.alive {
            seq![WindowSlot { alive: true, win: sweep_slot(x.win).0 }]
        } else {
            Seq::<WindowSlot>::empty()
        }));
        assert(sweep_slots(slots.push(x)).1 =~= sweep_slots(slots).1 + (if x.alive {
            sweep_slot(x.win).1
        } else {
            Seq::<WaywinEvent>::empty()
        }));
    }
}

/// Sweep the registry: drop dead entries, sweep live ones in order,
/// appending every owed event to the queue.
pub fn sweep_windows(slots: &mut Vec<WindowSlot>, queue: &mut Vec<WaywinEvent>)
    requires
        forall|j: int|
            0 <= j < old(slots)@.len() && (#[trigger] old(slots)@[j]).alive ==> old(
                slots,
            )@[j].win.wf(),
    ensures
        final(slots)@ == sweep_slots(old(slots)@).0,
        final(queue)@ == old(queue)@ + sweep_slots(old(slots)@).1,
{
    let ghost orig = slots@;
    let mut out: Vec<WindowSlot> = Vec::new();
    let mut i: usize = 0;
    proof {
        assert(orig.take(0) =~= Seq::<WindowSlot>::empty());
    }
    while i < slots.len()
        invariant
            0 <= i <= slots.len(),
            slots@ == orig,
            orig == old(slots)@,
            out@ == sweep_slots(orig.take(i as int)).0,
            queue@ == old(queue)@ + sweep_slots(orig.take(i as int)).1,
            forall|j: int|
                0 <= j < orig.len() && (#[trigger] orig[j]).alive ==> orig[j].win.wf(),
        decreases slots.len() - i,
    {
        let slot = slots[i];
        proof {
            assert(orig.take(i as int + 1) =~= orig.take(i as int).push(orig[i as int]));
            lemma_sweep_slots_snoc(orig.take(i as int), orig[i as int]);
        }
        if slot.alive {
            let mut win = slot.win;
            proof {
                assert(old(slots)@[i as int] == slot);
                assert(win.wf());
            }
            sweep_one(&mut win, queue);
            out.push(WindowSlot { alive: true, win });
        }
        i = i + 1;
    }
    proof {
        assert(orig.take(slots@.len() as int) =~= orig);
    }
    core::mem::swap(slots, &mut out);
}

proof fn lemma_prune_events_snoc(q: Seq<WaywinEvent>, x: WaywinEvent, slots: Seq<WindowSlot>)
    ensures
        prune_events(q.push(x), slots) == prune_events(q, slots) + (if event_kept(x, slots) {
            seq![x]
        } else {
            Seq::empty()
        }),
    decreases q.len(),
{
    reveal_with_fuel(prune_events, 2);
    if q.len() == 0 {
        assert(q.push(x).drop_first() =~= Seq::<WaywinEvent>::empty());
        assert(prune_events(q.push(x), slots) =~= prune_events(q, slots) + (if event_kept(
            x,
            slots,
        ) {
            seq![x]
        } else {
            Seq::<WaywinEvent>::empty()
        }));
    } else {
        lemma_prune_events_snoc(q.drop_first(), x, slots);
        assert(q.push(x).drop_first() =~= q.drop_first().push(x));
        assert(q.push(x)[0] == q[0]);
        assert(prune_events(q.push(x), slots) =~= prune_events(q, slots) + (if event_kept(
            x,
            slots,
        ) {
            seq![x]
        } else {
            Seq::<WaywinEvent>::empty()
        }));
    }
}

/// Whether any live registry entry is the window `id`.
pub fn has_live_window(slots: &Vec<WindowSlot>, id: usize) -> (r: bool)
    ensures
        r == is_live(slots@, id),
{
    let mut i: usize = 0;
    while i < slots.len()
        invariant
            0 <= i <= slots.len(),
            forall|j: int|
                0 <= j < i ==> !((#[trigger] slots@[j]).alive && slots@[j].win.id == id),
        decreases slots.len() - i,
    {
        if slots[i].alive && slots[i].win.id == id {
            return true;
        }
        i = i + 1;
    }
    false
}

/// Remove every queued event addressed to a window that no longer
/// resolves. A dropped window's events are never delivered.
pub fn prune_dead_events(queue: &mut Vec<WaywinEvent>, slots: &Vec<WindowSlot>)
    ensures
        final(queue)@ == prune_events(old(queue)@, slots@),
{
    let ghost orig = queue@;
    let mut out: Vec<WaywinEvent> = Vec::new();
    let mut i: usize = 0;
    proof {
        assert(orig.take(0) =~= Seq::<WaywinEvent>::empty());
    }
    while i < queue.len()
        invariant
            0 <= i <= queue.len(),
            queue@ == orig,
            out@ == prune_events(orig.take(i as int), slots@),
        decreases queue.len() - i,
    {
        proof {
            assert(orig.take(i as int + 1) =~= orig.take(i as int).push(orig[i as int]));
            lemma_prune_events_snoc(orig.take(i as int), orig[i as int], slots@);
        }
        let keep = match &queue[i] {
            WaywinEvent::WindowEvent { window_id, .. } => has_live_window(slots, *window_id),
            WaywinEvent::DeviceEvent(_) => true,
        };
        if keep {
            let e = queue[i].duplicate();
            out.push(e);
        }
        i = i + 1;
    }
    proof {
        assert(orig.take(queue@.len() as int) =~= orig);
    }
    core::mem::swap(queue, &mut out);
}

/// One whole iteration of the loop core, after the native source has
/// dispatched its callbacks into the machines and the queue: drop the
/// queued events of windows that no longer resolve, sweep the registry
/// for configuration deltas and owed repaints, and hand back everything
/// to deliver, in arrival order. The caller delivers each event to the
/// application callback and checks the continue flag after each one.
pub fn run_iteration(slots: &mut Vec<WindowSlot>, queue: &mut Vec<WaywinEvent>) -> (out: Vec<
    WaywinEvent,
>)
    requires
        forall|j: int|
            0 <= j < old(slots)@.len() && (#[trigger] old(slots)@[j]).alive ==> old(
                slots,
            )@[j].win.wf(),
    ensures
        out@ == prune_events(old(queue)@, old(slots)@) + sweep_slots(old(slots)@).1,
        final(slots)@ == sweep_slots(old(slots)@).0,
        final(queue)@ == Seq::<WaywinEvent>::empty(),
{
    prune_dead_events(queue, slots);
    sweep_windows(slots, queue);
    drain_queue(queue)
}

/// Whether the event is window-addressed to `id`.
pub open spec fn addressed_to(e: WaywinEvent, id: usize) -> bool {
    e matches WaywinEvent::WindowEvent { window_id, .. } && window_id == id
}

/// How many times the exact event `e` occurs in the sequence.
pub open spec fn occur_count(es: Seq<WaywinEvent>, e: WaywinEvent) -> nat
    decreases es.len(),
{
    if es.len() == 0 {
        0
    } else {
        (if es[0] == e {
            1nat
        } else {
            0nat
        }) + occur_count(es.drop_first(), e)
    }
}

proof fn lemma_occur_count_concat(a: Seq<WaywinEvent>, b: Seq<WaywinEvent>, e: WaywinEvent)
    ensures
        occur_count(a + b, e) == occur_count(a, e) + occur_count(b, e),
    decreases a.len(),
{
    if a.len() == 0 {
        assert(a + b =~= b);
    } else {
        lemma_occur_count_concat(a.drop_first(), b, e);
        assert((a + b).drop_first() =~= a.drop_first() + b);
        assert((a + b)[0] == a[0]);
    }
}

/// Every event one window's sweep emits is addressed to that window,
/// and each of `Paint`, `Resized`, and `NewScaleFactor` occurs at most
/// once, exactly when it is owed.
proof fn lemma_sweep_slot_events(w: WindowState, id: usize)
    ensures
        forall|i: int|
            0 <= i < sweep_slot(w).1.len() ==> addressed_to(#[trigger] sweep_slot(w).1[i], w.id),
        occur_count(sweep_slot(w).1, wevent(Event::Paint, id)) == if id == w.id && sweep_paint(w) {
            1nat
        } else {
            0nat
        },
        occur_count(sweep_slot(w).1, wevent(Event::Resized, id)) == if id == w.id && sweep_resized(
            w,
        ) {
            1nat
        } else {
            0nat
        },
        occur_count(sweep_slot(w).1, wevent(Event::NewScaleFactor, id)) == if id == w.id
            && sweep_scaled(w) {
            1nat
        } else {
            0nat
        },
{
    reveal_with_fuel(occur_count, 3);
    let scale_part = if sweep_scaled(w) {
        seq![wevent(Event::NewScaleFactor, w.id)]
    } else {
        Seq::<WaywinEvent>::empty()
    };
    let resize_part = if sweep_resized(w) {
        seq![wevent(Event::Resized, w.id)]
    } else {
        Seq::<WaywinEvent>::empty()
    };
    let paint_part = if sweep_paint(w) {
        seq![wevent(Event::Paint, w.id)]
    } else {
        Seq::<WaywinEvent>::empty()
    };
    lemma_occur_count_concat(scale_part + resize_part, paint_part, wevent(Event::Paint, id));
    lemma_occur_count_concat(scale_part, resize_part, wevent(Event::Paint, id));
    lemma_occur_count_concat(scale_part + resize_part, paint_part, wevent(Event::Resized, id));
    lemma_occur_count_concat(scale_part, resize_part, wevent(Event::Resized, id));
    lemma_occur_count_concat(scale_part + resize_part, paint_part, wevent(Event::NewScaleFactor, id));
    lemma_occur_count_concat(scale_part, resize_part, wevent(Event::NewScaleFactor, id));
    if sweep_scaled(w) {
        assert(scale_part.drop_first() =~= Seq::<WaywinEvent>::empty());
    }
    if sweep_resized(w) {
        assert(resize_part.drop_first() =~= Seq::<WaywinEvent>::empty());
    }
    if sweep_paint(w) {
        assert(paint_part.drop_first() =~= Seq::<WaywinEvent>::empty());
    }
}

/// Redraw coalescing: however many redraw triggers a window accumulated
/// within one iteration — the flag is idempotent, so N requests leave
/// the same state as one — its sweep emits exactly one `Paint` when one
/// is owed, and never more than one.
pub proof fn lemma_redraw_coalescing(w: WindowState)
    ensures
        ((WindowState { redraw: true, ..(WindowState { redraw: true, ..w }) }) == (WindowState {
            redraw: true,
            ..w
        })),
        occur_count(sweep_slot((WindowState { redraw: true, ..w })).1, wevent(Event::Paint, w.id))
            == 1,
        occur_count(sweep_slot(w).1, wevent(Event::Paint, w.id)) <= 1,
{
    lemma_sweep_slot_events(WindowState { redraw: true, ..w }, w.id);
    lemma_sweep_slot_events(w, w.id);
}

proof fn lemma_not_live_drop_first(slots: Seq<WindowSlot>, id: usize)
    requires
        slots.len() > 0,
        !is_live(slots, id),
    ensures
        !is_live(slots.drop_first(), id),
{
    assert forall|i: int|
        0 <= i < slots.drop_first().len() implies !((#[trigger] slots.drop_first()[i]).alive
        && slots.drop_first()[i].win.id == id) by {
        assert(slots.drop_first()[i] == slots[i + 1]);
    }
}

/// Registry sweeps never emit two `Paint` events for one window: with
/// no two live entries naming the same window, at most one `Paint` per
/// window id comes out of a sweep.
pub proof fn lemma_sweep_paint_unique(slots: Seq<WindowSlot>, id: usize)
    requires
        forall|i: int, j: int|
            0 <= i < j < slots.len() && (#[trigger] slots[i]).alive && (#[trigger] slots[j]).alive
                ==> slots[i].win.id != slots[j].win.id,
    ensures
        occur_count(sweep_slots(slots).1, wevent(Event::Paint, id)) <= 1,
    decreases slots.len(),
{
    if slots.len() == 0 {
        reveal_with_fuel(occur_count, 1);
    } else {
        let rest = slots.drop_first();
        assert(forall|i: int, j: int|
            0 <= i < j < rest.len() && (#[trigger] rest[i]).alive && (#[trigger] rest[j]).alive
                ==> rest[i].win.id != rest[j].win.id) by {
            assert(forall|i: int| 0 <= i < rest.len() ==> #[trigger] rest[i] == slots[i + 1]);
        }
        lemma_sweep_paint_unique(rest, id);
        if slots[0].alive {
            lemma_sweep_slot_events(slots[0].win, id);
            lemma_occur_count_concat(
                sweep_slot(slots[0].win).1,
                sweep_slots(rest).1,
                wevent(Event::Paint, id),
            );
            if slots[0].win.id == id && sweep_paint(slots[0].win) {
                // No other live entry names this window, so the tail
                // contributes no Paint for it.
                assert(forall|i: int|
                    0 <= i < rest.len() ==> !((#[trigger] rest[i]).alive && rest[i].win.id
                        == id)) by {
                    assert(forall|i: int|
                        0 <= i < rest.len() ==> #[trigger] rest[i] == slots[i + 1]);
                }
                lemma_sweep_dead_silent(rest, id);
                lemma_occur_count_zero(sweep_slots(rest).1, wevent(Event::Paint, id), id);
            }
        }
    }
}

proof fn lemma_occur_count_zero(es: Seq<WaywinEvent>, e: WaywinEvent, id: usize)
    requires
        forall|i: int| 0 <= i < es.len() ==> !addressed_to(#[trigger] es[i], id),
        addressed_to(e, id),
    ensures
        occur_count(es, e) == 0,
    decreases es.len(),
{
    if es.len() > 0 {
        assert(forall|i: int|
            0 <= i < es.drop_first().len() ==> #[trigger] es.drop_first()[i] == es[i + 1]);
        lemma_occur_count_zero(es.drop_first(), e, id);
        assert(!addressed_to(es[0], id));
    }
}

/// Weak-reference safety, sweep half: once no live registry entry names
/// a window, its sweep emits nothing for it, and the swept registry —
/// which holds only entries that still resolved — does not name it
/// either.
pub proof fn lemma_sweep_dead_silent(slots: Seq<WindowSlot>, id: usize)
    requires
        !is_live(slots, id),
    ensures
        forall|k: int|
            0 <= k < sweep_slots(slots).1.len() ==> !addressed_to(
                #[trigger] sweep_slots(slots).1[k],
                id,
            ),
        forall|k: int|
            0 <= k < sweep_slots(slots).0.len() ==> (#[trigger] sweep_slots(slots).0[k]).alive
                && sweep_slots(slots).0[k].win.id != id,
    decreases slots.len(),
{
    if slots.len() > 0 {
        lemma_not_live_drop_first(slots, id);
        lemma_sweep_dead_silent(slots.drop_first(), id);
        if slots[0].alive {
            assert(slots[0].win.id != id);
            lemma_sweep_slot_events(slots[0].win, id);
            let head_events = sweep_slot(slots[0].win).1;
            let rest = sweep_slots(slots.drop_first());
            assert(forall|k: int|
                0 <= k < head_events.len() ==> !addressed_to(#[trigger] head_events[k], id));
            assert(forall|k: int|
                0 <= k < sweep_slots(slots).1.len() ==> !addressed_to(
                    #[trigger] sweep_slots(slots).1[k],
                    id,
                )) by {
                assert(sweep_slots(slots).1 == head_events + rest.1);
            }
        }
    }
}

/// Weak-reference safety, queue half: pruning against a registry that
/// no longer resolves a window removes every event addressed to it.
pub proof fn lemma_prune_dead_silent(q: Seq<WaywinEvent>, slots: Seq<WindowSlot>, id: usize)
    requires
        !is_live(slots, id),
    ensures
        forall|k: int|
            0 <= k < prune_events(q, slots).len() ==> !addressed_to(
                #[trigger] prune_events(q, slots)[k],
                id,
            ),
    decreases q.len(),
{
    if q.len() > 0 {
        lemma_prune_dead_silent(q.drop_first(), slots, id);
        if event_kept(q[0], slots) {
            assert(!addressed_to(q[0], id));
            assert(prune_events(q, slots) == seq![q[0]] + prune_events(q.drop_first(), slots));
        }
    }
}

/// Ordering within one window's sweep: when a `Paint` is owed it is the
/// single last event, so the window's `NewScaleFactor` and `Resized`
/// always precede its `Paint` within the iteration.
pub proof fn lemma_resize_before_paint(w: WindowState)
    ensures
        sweep_paint(w) ==> sweep_slot(w).1.len() >= 1 && sweep_slot(w).1.last() == wevent(
            Event::Paint,
            w.id,
        ),
        forall|i: int|
            0 <= i < sweep_slot(w).1.len() - 1 ==> #[trigger] sweep_slot(w).1[i] != wevent(
                Event::Paint,
                w.id,
            ),
{
}

/// The machine after `n` repetitions of one size proposal.
pub open spec fn propose_n(s: WindowState, width: i32, height: i32, n: nat) -> WindowState
    decreases n,
{
    if n == 0 {
        s
    } else {
        crate::window::step_propose(propose_n(s, width, height, (n - 1) as nat), width, height)
    }
}

/// Configure idempotence: however often the compositor repeats one size
/// proposal before the acknowledgment, the machine is exactly as after
/// a single proposal, so the acknowledging sweep emits exactly the
/// events of the single-proposal case — at most one `Resized`.
pub proof fn lemma_configure_idempotence(s: WindowState, width: i32, height: i32, n: nat)
    requires
        n >= 1,
    ensures
        propose_n(s, width, height, n) == crate::window::step_propose(s, width, height),
        sweep_slot(crate::window::step_ack(propose_n(s, width, height, n))).1 == sweep_slot(
            crate::window::step_ack(crate::window::step_propose(s, width, height)),
        ).1,
        occur_count(
            sweep_slot(crate::window::step_ack(propose_n(s, width, height, n))).1,
            wevent(Event::Resized, s.id),
        ) <= 1,
    decreases n,
{
    if n == 1 {
    } else {
        lemma_configure_idempotence(s, width, height, (n - 1) as nat);
    }
    lemma_sweep_slot_events(crate::window::step_ack(propose_n(s, width, height, n)), s.id);
}

/// Degenerate-size rejection, delivery half: after a degenerate
/// proposal and its acknowledgment, the committed size is what it was,
/// and — with nothing else outstanding — the sweep emits no `Resized`.
pub proof fn lemma_degenerate_no_resize(s: WindowState, width: i32, height: i32)
    requires
        width == 0 || height == 0,
        s.announced == s.committed,
    ensures
        crate::window::step_ack(crate::window::step_propose(s, width, height)).committed
            == s.committed,
        !sweep_resized(crate::window::step_ack(crate::window::step_propose(s, width, height))),
        forall|k: int|
            0 <= k < sweep_slot(
                crate::window::step_ack(crate::window::step_propose(s, width, height)),
            ).1.len() ==> #[trigger] sweep_slot(
                crate::window::step_ack(crate::window::step_propose(s, width, height)),
            ).1[k] != wevent(Event::Resized, s.id),
{
    let s2 = crate::window::step_ack(crate::window::step_propose(s, width, height));
    lemma_sweep_slot_events(s2, s.id);
    let evs = sweep_slot(s2).1;
    assert forall|k: int| 0 <= k < evs.len() implies #[trigger] evs[k] != wevent(
        Event::Resized,
        s.id,
    ) by {
        if evs[k] == wevent(Event::Resized, s.id) {
            reveal_with_fuel(occur_count, 3);
            lemma_occur_count_positive(evs, wevent(Event::Resized, s.id), k);
        }
    }
}

proof fn lemma_occur_count_positive(es: Seq<WaywinEvent>, e: WaywinEvent, k: int)
    requires
        0 <= k < es.len(),
        es[k] == e,
    ensures
        occur_count(es, e) >= 1,
    decreases es.len(),
{
    if k == 0 {
    } else {
        lemma_occur_count_positive(es.drop_first(), e, k - 1);
    }
}

/// The run/stop state of the dispatcher: `Idle` before and after `run`,
/// `Running` while the application callback is installed.
#[derive(Debug, Clone, Copy, PartialEq, Eq, Structural)]
pub enum LoopPhase {
    Idle,
    Running,
}

/// Cooperative cancellation for the event loop. The continue flag is
/// observed after every delivered event; once it goes false the loop
/// stops delivering and returns to `Idle`.
#[derive(Debug, Clone, Copy, PartialEq, Eq, Structural)]
pub struct RunControl {
    pub phase: LoopPhase,
    pub keep_running: bool,
}

impl RunControl {
    /// A fresh dispatcher: idle, not delivering.
    pub fn new() -> (c: RunControl)
        ensures
            c == (RunControl { phase: LoopPhase::Idle, keep_running: false }),
    {
        RunControl { phase: LoopPhase::Idle, keep_running: false }
    }

    /// Enter the running state. Fails — changing nothing — when already
    /// running: re-entering `run` is a usage error.
    pub fn start(&mut self) -> (ok: bool)
        ensures
            ok == (old(self).phase is Idle),
            *final(self) == if old(self).phase is Idle {
                RunControl { phase: LoopPhase::Running, keep_running: true }
            } else {
                *old(self)
            },
    {
        match self.phase {
            LoopPhase::Idle => {
                self.phase = LoopPhase::Running;
                self.keep_running = true;
                true
            },
            LoopPhase::Running => false,
        }
    }

    /// Record the continue flag the application callback left after one
    /// delivery; returns whether the loop must stop now, uninstalling
    /// the callback and delivering nothing further.
    pub fn after_delivery(&mut self, continue_flag: bool) -> (stop: bool)
        ensures
            stop == !continue_flag,
            *final(self) == (RunControl {
                phase: if continue_flag {
                    old(self).phase
                } else {
                    LoopPhase::Idle
                },
                keep_running: continue_flag,
            }),
    {
        self.keep_running = continue_flag;
        if !continue_flag {
            self.phase = LoopPhase::Idle;
        }
        !continue_flag
    }

    /// Leave the running state: the callback is uninstalled and cannot
    /// be invoked again.
    pub fn finish(&mut self)
        ensures
            *final(self) == (RunControl { phase: LoopPhase::Idle, keep_running: false }),
    {
        self.phase = LoopPhase::Idle;
        self.keep_running = false;
    }

    pub fn is_running(&self) -> (r: bool)
        ensures
            r == (self.phase is Running),
    {
        matches!(self.phase, LoopPhase::Running)
    }
}

/// Take the queued events for delivery, in arrival order, leaving the
/// queue empty.
pub fn drain_queue(queue: &mut Vec<WaywinEvent>) -> (out: Vec<WaywinEvent>)
    ensures
        out@ == old(queue)@,
        final(queue)@ == Seq::<WaywinEvent>::empty(),
{
    let mut out: Vec<WaywinEvent> = Vec::new();
    core::mem::swap(queue, &mut out);
    out
}

} // verus!
