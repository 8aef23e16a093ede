//! Per-window state: the configure handshake, scale negotiation, the
//! redraw flag, and pointer-constraint bookkeeping.
//!
//! A window carries two generations of its configuration: `committed` is
//! what the application has been told about, `announced` the snapshot the
//! event loop compared against last iteration. A native configure proposal
//! only ever lands in `pending`; it takes effect when the handshake is
//! acknowledged.
use crate::{MAX_DIM, MAX_SCALE_120};
use vstd::prelude::*;

verus! {

/// A logical width and height in pixels.
#[derive(Debug, Clone, Copy, PartialEq, Eq, Structural)]
pub struct Extent {
    pub width: i32,
    pub height: i32,
}

/// A window configuration: logical size plus the scale factor in 1/120ths.
#[derive(Debug, Clone, Copy, PartialEq, Eq, Structural)]
pub struct WindowConfig {
    pub width: i32,
    pub height: i32,
    pub scale120: u32,
}

/// Physical length of `len` logical pixels under a scale in 1/120ths,
/// rounded to the nearest whole pixel.
pub open spec fn phys_len(len: int, scale120: int) -> int {
    (len * scale120 + 60) / 120
}

impl WindowConfig {
    /// Sizes are positive and bounded, the scale is positive and bounded.
    pub open spec fn wf(self) -> bool {
        &&& 1 <= self.width <= MAX_DIM
        &&& 1 <= self.height <= MAX_DIM
        &&& 1 <= self.scale120 <= MAX_SCALE_120
    }

    /// The physical pixel size of this configuration.
    pub fn physical_size(&self) -> (r: (u32, u32))
        requires
            self.wf(),
        ensures
            r.0 == phys_len(self.width as int, self.scale120 as int),
            r.1 == phys_len(self.height as int, self.scale120 as int),
    {
        proof {
            assert(self.width * self.scale120 <= 65535i64 * 120000) by (nonlinear_arith)
                requires
                    1 <= self.width <= MAX_DIM,
                    1 <= self.scale120 <= MAX_SCALE_120,
            ;
            assert(self.height * self.scale120 <= 65535i64 * 120000) by (nonlinear_arith)
                requires
                    1 <= self.height <= MAX_DIM,
                    1 <= self.scale120 <= MAX_SCALE_120,
            ;
            assert(self.width * self.scale120 >= 0) by (nonlinear_arith)
                requires
                    1 <= self.width,
                    1 <= self.scale120,
            ;
            assert(self.height * self.scale120 >= 0) by (nonlinear_arith)
                requires
                    1 <= self.height,
                    1 <= self.scale120,
            ;
        }
        let w: u64 = (self.width as u64 * self.scale120 as u64 + 60) / 120;
        let h: u64 = (self.height as u64 * self.scale120 as u64 + 60) / 120;
        (w as u32, h as u32)
    }

    /// The logical size of this configuration.
    pub fn logical_size(&self) -> (r: (i32, i32))
        ensures
            r.0 == self.width,
            r.1 == self.height,
    {
        (self.width, self.height)
    }
}

/// The state machine of one window.
#[derive(Debug, Clone, Copy)]
pub struct WindowState {
    /// Stable identity of the window, derived from its native object.
    pub id: usize,
    /// The configuration the application has been told about.
    pub committed: WindowConfig,
    /// The committed configuration as of the last event-loop sweep.
    pub announced: WindowConfig,
    /// The latest unacknowledged size proposal, if any.
    pub pending: Option<Extent>,
    /// Whether a repaint is owed; cleared when the loop emits Paint.
    pub redraw: bool,
    pub fullscreen: bool,
    /// Whether the fractional-scale extension drives this window's scale;
    /// when set, legacy integer scale hints are ignored.
    pub has_fractional_scaling: bool,
    /// Whether the pointer is currently locked to this window.
    pub locked: bool,
    /// Whether the pointer is currently confined to this window.
    pub confined: bool,
}

/// Effect of a native size proposal: a degenerate size withdraws the
/// pending proposal, a bounded size replaces it, anything else is a
/// protocol anomaly and is dropped.
pub open spec fn step_propose(s: WindowState, width: i32, height: i32) -> WindowState {
    if width == 0 || height == 0 {
        WindowState { pending: None, ..s }
    } else if 1 <= width <= MAX_DIM && 1 <= height <= MAX_DIM {
        WindowState { pending: Some(Extent { width, height }), ..s }
    } else {
        s
    }
}

/// Effect of acknowledging a configure sequence: a pending proposal is
/// promoted into the committed configuration; with none, the committed
/// size is recorded as the standing proposal.
pub open spec fn step_ack(s: WindowState) -> WindowState {
    match s.pending {
        Some(e) => WindowState {
            committed: WindowConfig { width: e.width, height: e.height, scale120: s.committed.scale120 },
            ..s
        },
        None => WindowState {
            pending: Some(Extent { width: s.committed.width, height: s.committed.height }),
            ..s
        },
    }
}

/// Effect of a legacy integer scale hint: ignored when the fractional
/// path is bound, or when the factor is out of bounds.
pub open spec fn step_buffer_scale(s: WindowState, factor: i32) -> WindowState {
    if s.has_fractional_scaling || factor < 1 || factor > 1000 {
        s
    } else {
        WindowState {
            committed: WindowConfig { scale120: (factor * 120) as u32, ..s.committed },
            ..s
        }
    }
}

/// Effect of a fractional scale update, in 1/120ths; out-of-bounds values
/// are protocol anomalies and are dropped.
pub open spec fn step_fractional_scale(s: WindowState, scale120: u32) -> WindowState {
    if 1 <= scale120 <= MAX_SCALE_120 {
        WindowState { committed: WindowConfig { scale120, ..s.committed }, ..s }
    } else {
        s
    }
}

impl WindowState {
    /// Every configuration generation is well formed.
    pub open spec fn wf(self) -> bool {
        &&& self.committed.wf()
        &&& self.announced.wf()
        &&& (self.pending matches Some(e) ==> 1 <= e.width <= MAX_DIM && 1 <= e.height
            <= MAX_DIM)
    }

    /// A fresh window: a speculative 800x600 configuration at scale 1 is
    /// committed, and the redraw flag is pre-set so the first Paint is
    /// guaranteed even if the compositor never proposes a size.
    pub fn new(id: usize, has_fractional_scaling: bool) -> (s: WindowState)
        ensures
            s == (WindowState {
                id,
                committed: WindowConfig { width: 800, height: 600, scale120: 120 },
                announced: WindowConfig { width: 800, height: 600, scale120: 120 },
                pending: None,
                redraw: true,
                fullscreen: false,
                has_fractional_scaling,
                locked: false,
                confined: false,
            }),
            s.wf(),
    {
        let config = WindowConfig { width: 800, height: 600, scale120: 120 };
        WindowState {
            id,
            committed: config,
            announced: config,
            pending: None,
            redraw: true,
            fullscreen: false,
            has_fractional_scaling,
            locked: false,
            confined: false,
        }
    }

    /// The window's stable identity.
    pub fn id(&self) -> (r: usize)
        ensures
            r == self.id,
    {
        self.id
    }

    /// Record a native size proposal; it does not take effect yet.
    pub fn propose_size(&mut self, width: i32, height: i32)
        ensures
            *final(self) == step_propose(*old(self), width, height),
            old(self).wf() ==> final(self).wf(),
    {
        if width == 0 || height == 0 {
            self.pending = None;
        } else if 1 <= width && width <= MAX_DIM && 1 <= height && height <= MAX_DIM {
            self.pending = Some(Extent { width, height });
        }
    }

    /// Acknowledge the current configure sequence, promoting the pending
    /// proposal into the committed configuration.
    pub fn ack_configure(&mut self)
        ensures
            *final(self) == step_ack(*old(self)),
            old(self).wf() ==> final(self).wf(),
    {
        match self.pending {
            Some(e) => {
                self.committed = WindowConfig {
                    width: e.width,
                    height: e.height,
                    scale120: self.committed.scale120,
                };
            },
            None => {
                self.pending = Some(
                    Extent { width: self.committed.width, height: self.committed.height },
                );
            },
        }
    }

    /// Apply a legacy integer scale hint; ignored when the fractional
    /// scale path is bound.
    pub fn set_buffer_scale(&mut self, factor: i32)
        ensures
            *final(self) == step_buffer_scale(*old(self), factor),
            old(self).wf() ==> final(self).wf(),
    {
        if !self.has_fractional_scaling && 1 <= factor && factor <= 1000 {
            self.committed = WindowConfig { scale120: (factor * 120) as u32, ..self.committed };
        }
    }

    /// Apply a fractional scale update, in 1/120ths.
    pub fn set_fractional_scale(&mut self, scale120: u32)
        ensures
            *final(self) == step_fractional_scale(*old(self), scale120),
            old(self).wf() ==> final(self).wf(),
    {
        if 1 <= scale120 && scale120 <= MAX_SCALE_120 {
            self.committed = WindowConfig { scale120, ..self.committed };
        }
    }

    /// Mark the window as owing a repaint. Idempotent: any number of
    /// requests before the next sweep collapse into one Paint.
    pub fn request_redraw(&mut self)
        ensures
            *final(self) == (WindowState { redraw: true, ..*old(self) }),
    {
        self.redraw = true;
    }

    /// Read and clear the redraw flag in one step.
    pub fn reset_redraw(&mut self) -> (r: bool)
        ensures
            r == old(self).redraw,
            *final(self) == (WindowState { redraw: false, ..*old(self) }),
    {
        let redraw = self.redraw;
        self.redraw = false;
        redraw
    }

    /// Record the fullscreen preference the application asked for.
    pub fn set_fullscreen(&mut self, fullscreen: bool)
        ensures
            *final(self) == (WindowState { fullscreen, ..*old(self) }),
    {
        self.fullscreen = fullscreen;
    }

    pub fn get_fullscreen(&self) -> (r: bool)
        ensures
            r == self.fullscreen,
    {
        self.fullscreen
    }

    /// Lock the pointer in place, releasing any standing confinement.
    /// Does nothing when the compositor offers no pointer constraints.
    pub fn lock_pointer(&mut self, constraints_available: bool)
        ensures
            *final(self) == if constraints_available {
                WindowState { locked: true, confined: false, ..*old(self) }
            } else {
                *old(self)
            },
    {
        if constraints_available {
            self.confined = false;
            self.locked = true;
        }
    }

    /// Confine the pointer to the window, releasing any standing lock.
    /// Does nothing when the compositor offers no pointer constraints.
    pub fn confine_pointer(&mut self, constraints_available: bool)
        ensures
            *final(self) == if constraints_available {
                WindowState { locked: false, confined: true, ..*old(self) }
            } else {
                *old(self)
            },
    {
        if constraints_available {
            self.locked = false;
            self.confined = true;
        }
    }

    pub fn unlock_pointer(&mut self)
        ensures
            *final(self) == (WindowState { locked: false, ..*old(self) }),
    {
        self.locked = false;
    }

    pub fn unconfine_pointer(&mut self)
        ensures
            *final(self) == (WindowState { confined: false, ..*old(self) }),
    {
        self.confined = false;
    }

    pub fn is_pointer_locked(&self) -> (r: bool)
        ensures
            r == self.locked,
    {
        self.locked
    }

    pub fn is_pointer_confined(&self) -> (r: bool)
        ensures
            r == self.confined,
    {
        self.confined
    }

    /// The physical pixel size of the committed configuration.
    pub fn get_physical_size(&self) -> (r: (u32, u32))
        requires
            self.wf(),
        ensures
            r.0 == phys_len(self.committed.width as int, self.committed.scale120 as int),
            r.1 == phys_len(self.committed.height as int, self.committed.scale120 as int),
    {
        self.committed.physical_size()
    }

    /// The logical size of the committed configuration.
    pub fn get_logical_size(&self) -> (r: (i32, i32))
        ensures
            r.0 == self.committed.width,
            r.1 == self.committed.height,
    {
        self.committed.logical_size()
    }

    /// The committed scale factor, in 1/120ths.
    pub fn get_scale120(&self) -> (r: u32)
        ensures
            r == self.committed.scale120,
    {
        self.committed.scale120
    }
}

/// Proposing the same size again changes nothing: only the latest
/// proposal counts, however often it is repeated.
pub proof fn lemma_propose_idempotent(s: WindowState, width: i32, height: i32)
    ensures
        step_propose(step_propose(s, width, height), width, height) == step_propose(
            s,
            width,
            height,
        ),
{
}

/// A degenerate size proposal never reaches the committed configuration:
/// even after acknowledgment the committed size is what it was before.
pub proof fn lemma_degenerate_size_rejected(s: WindowState, width: i32, height: i32)
    requires
        width == 0 || height == 0,
    ensures
        step_propose(s, width, height).committed == s.committed,
        step_ack(step_propose(s, width, height)).committed == s.committed,
{
}

} // verus!
