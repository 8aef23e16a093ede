//! Focus-transition traces.
//!
//! Keyboard focus and pointer focus obey the same discipline: at most one
//! window holds focus at any point of the delivered stream, and focus is
//! gained only when nobody holds it and lost only by its holder. This
//! module states that discipline over an abstract trace of
//! `(window, gained)` transitions; the keyboard and pointer machines each
//! map their emitted events onto such a trace.
use vstd::prelude::*;

verus! {

/// The trace is a valid focus history starting from `holder`: every gain
/// happens while no window holds focus, every loss is by the current
/// holder.
pub open spec fn focus_trace_ok(t: Seq<(usize, bool)>, holder: Option<usize>) -> bool
    decreases t.len(),
{
    if t.len() == 0 {
        true
    } else {
        let id = t[0].0;
        let gained = t[0].1;
        if gained {
            holder is None && focus_trace_ok(t.drop_first(), Some(id))
        } else {
            holder == Some(id) && focus_trace_ok(t.drop_first(), None)
        }
    }
}

/// Who holds focus after the trace, starting from `holder`.
pub open spec fn trace_end(t: Seq<(usize, bool)>, holder: Option<usize>) -> Option<usize>
    decreases t.len(),
{
    if t.len() == 0 {
        holder
    } else {
        trace_end(
            t.drop_first(),
            if t[0].1 {
                Some(t[0].0)
            } else {
                None
            },
        )
    }
}

/// Valid traces compose: a valid trace followed by a trace valid from its
/// end holder is valid as a whole.
pub proof fn lemma_trace_concat(t1: Seq<(usize, bool)>, t2: Seq<(usize, bool)>, holder: Option<
    usize,
>)
    requires
        focus_trace_ok(t1, holder),
        focus_trace_ok(t2, trace_end(t1, holder)),
    ensures
        focus_trace_ok(t1 + t2, holder),
        trace_end(t1 + t2, holder) == trace_end(t2, trace_end(t1, holder)),
    decreases t1.len(),
{
    if t1.len() == 0 {
        assert(t1 + t2 =~= t2);
    } else {
        let next = if t1[0].1 {
            Some(t1[0].0)
        } else {
            None
        };
        lemma_trace_concat(t1.drop_first(), t2, next);
        assert((t1 + t2).drop_first() =~= t1.drop_first() + t2);
    }
}

} // verus!
