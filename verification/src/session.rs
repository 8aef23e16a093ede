//! Session bootstrap decisions: which globals a connection must offer,
//! which optional ones degrade to fallbacks, how seat capability changes
//! rebind input devices, and in which order a window's native resources
//! are released.
//!
//! The connection itself, the registry binds, and the destructor calls
//! are native work done by the runner; this module fixes what the runner
//! must do for every outcome of that work.
use vstd::prelude::*;

verus! {

/// Which globals the native display system offered.
#[derive(Debug, Clone, Copy, PartialEq, Eq, Structural)]
pub struct Capabilities {
    /// Surface factory; mandatory.
    pub compositor: bool,
    /// Top-level window factory; mandatory.
    pub wm_base: bool,
    /// Input-device factory; mandatory.
    pub seat: bool,
    /// Server-side decorations; optional.
    pub decoration: bool,
    /// Surface viewport scaling; optional.
    pub viewporter: bool,
    /// Fractional scale notifications; optional.
    pub fractional_scale: bool,
    /// Unaccelerated relative pointer motion; optional.
    pub relative_pointer: bool,
    /// Pointer locking and confinement; optional.
    pub pointer_constraints: bool,
}

/// Why a session could not be established.
#[derive(Debug, Clone, Copy, PartialEq, Eq, Structural)]
pub enum InitError {
    /// The native display system cannot be reached.
    ConnectionError,
    /// A mandatory global is absent.
    MissingRequiredCapability,
    /// A session already exists in this process.
    AlreadyInitialized,
}

/// What an established session uses of the optional capabilities.
#[derive(Debug, Clone, Copy, PartialEq, Eq, Structural)]
pub struct SessionPlan {
    /// Ask for server-side decorations.
    pub use_decoration: bool,
    /// Drive window scale through the fractional-scale protocol; needs
    /// both the viewporter and the fractional-scale global. Without it,
    /// windows fall back to legacy integer scale hints.
    pub use_fractional_scaling: bool,
    pub use_relative_pointer: bool,
    pub use_pointer_constraints: bool,
}

/// The session decision: what `plan_session` must return for every
/// combination of circumstances.
pub open spec fn spec_plan_session(
    already_initialized: bool,
    connected: bool,
    caps: Capabilities,
) -> Result<SessionPlan, InitError> {
    if already_initialized {
        Err(InitError::AlreadyInitialized)
    } else if !connected {
        Err(InitError::ConnectionError)
    } else if !(caps.compositor && caps.wm_base && caps.seat) {
        Err(InitError::MissingRequiredCapability)
    } else {
        Ok(
            SessionPlan {
                use_decoration: caps.decoration,
                use_fractional_scaling: caps.viewporter && caps.fractional_scale,
                use_relative_pointer: caps.relative_pointer,
                use_pointer_constraints: caps.pointer_constraints,
            },
        )
    }
}

/// Decide whether a session can be established and what it uses.
///
/// Succeeds exactly when no session exists yet, the display system was
/// reached, and all three mandatory globals are present; optional
/// globals only shape the plan, never the outcome.
pub fn plan_session(already_initialized: bool, connected: bool, caps: Capabilities) -> (r: Result<
    SessionPlan,
    InitError,
>)
    ensures
        r == spec_plan_session(already_initialized, connected, caps),
{
    if already_initialized {
        Err(InitError::AlreadyInitialized)
    } else if !connected {
        Err(InitError::ConnectionError)
    } else if !(caps.compositor && caps.wm_base && caps.seat) {
        Err(InitError::MissingRequiredCapability)
    } else {
        Ok(
            SessionPlan {
                use_decoration: caps.decoration,
                use_fractional_scaling: caps.viewporter && caps.fractional_scale,
                use_relative_pointer: caps.relative_pointer,
                use_pointer_constraints: caps.pointer_constraints,
            },
        )
    }
}

/// What to rebind after the seat announced its capability set: the old
/// devices are always released first, then a pointer is bound when the
/// seat has one — with the relative-motion sub-device when available —
/// and a keyboard when the seat has one.
#[derive(Debug, Clone, Copy, PartialEq, Eq, Structural)]
pub struct SeatPlan {
    pub bind_pointer: bool,
    pub bind_relative_pointer: bool,
    pub bind_keyboard: bool,
}

/// Decide the device rebinding for a seat capability announcement.
pub fn plan_seat(has_pointer: bool, has_keyboard: bool, relative_pointer_available: bool) -> (r:
    SeatPlan)
    ensures
        r.bind_pointer == has_pointer,
        r.bind_relative_pointer == (has_pointer && relative_pointer_available),
        r.bind_keyboard == has_keyboard,
{
    SeatPlan {
        bind_pointer: has_pointer,
        bind_relative_pointer: has_pointer && relative_pointer_available,
        bind_keyboard: has_keyboard,
    }
}

/// The session's own optional globals, in teardown vocabulary.
#[derive(Debug, Clone, Copy, PartialEq, Eq, Structural)]
pub enum SessionResource {
    FractionalScaleManager,
    Viewporter,
    DecorationManager,
    Seat,
}

/// The order in which a dying session releases what it bound: the
/// optional managers first, newest binding first, then the seat. The
/// window factory itself is reference-counted by the windows bound
/// through it and is destroyed only once no window remains.
pub fn session_destruction_order(
    has_fractional_scale: bool,
    has_viewporter: bool,
    has_decoration: bool,
) -> (r: Vec<SessionResource>)
    ensures
        r@ == (if has_fractional_scale {
            seq![SessionResource::FractionalScaleManager]
        } else {
            Seq::empty()
        }) + (if has_viewporter {
            seq![SessionResource::Viewporter]
        } else {
            Seq::empty()
        }) + (if has_decoration {
            seq![SessionResource::DecorationManager]
        } else {
            Seq::empty()
        }) + seq![SessionResource::Seat],
{
    let mut order: Vec<SessionResource> = Vec::new();
    if has_fractional_scale {
        order.push(SessionResource::FractionalScaleManager);
    }
    if has_viewporter {
        order.push(SessionResource::Viewporter);
    }
    if has_decoration {
        order.push(SessionResource::DecorationManager);
    }
    order.push(SessionResource::Seat);
    proof {
        assert(order@ =~= (if has_fractional_scale {
            seq![SessionResource::FractionalScaleManager]
        } else {
            Seq::<SessionResource>::empty()
        }) + (if has_viewporter {
            seq![SessionResource::Viewporter]
        } else {
            Seq::<SessionResource>::empty()
        }) + (if has_decoration {
            seq![SessionResource::DecorationManager]
        } else {
            Seq::<SessionResource>::empty()
        }) + seq![SessionResource::Seat]);
    }
    order
}

/// A window's native sub-objects, in teardown vocabulary.
#[derive(Debug, Clone, Copy, PartialEq, Eq, Structural)]
pub enum WindowResource {
    FractionalScale,
    Viewport,
    Decoration,
    Toplevel,
    WindowSurface,
    Surface,
}

/// The order in which a dying window must release its native resources:
/// strictly child before parent — the scaling objects, then the
/// decoration, then the top-level role, then the role surface, then the
/// base surface.
pub fn destruction_order(has_viewport_scaling: bool, has_decoration: bool) -> (r: Vec<
    WindowResource,
>)
    ensures
        r@ == (if has_viewport_scaling {
            seq![WindowResource::FractionalScale, WindowResource::Viewport]
        } else {
            Seq::empty()
        }) + (if has_decoration {
            seq![WindowResource::Decoration]
        } else {
            Seq::empty()
        }) + seq![WindowResource::Toplevel, WindowResource::WindowSurface, WindowResource::Surface],
{
    let mut order: Vec<WindowResource> = Vec::new();
    if has_viewport_scaling {
        order.push(WindowResource::FractionalScale);
        order.push(WindowResource::Viewport);
    }
    if has_decoration {
        order.push(WindowResource::Decoration);
    }
    order.push(WindowResource::Toplevel);
    order.push(WindowResource::WindowSurface);
    order.push(WindowResource::Surface);
    proof {
        assert(order@ =~= (if has_viewport_scaling {
            seq![WindowResource::FractionalScale, WindowResource::Viewport]
        } else {
            Seq::<WindowResource>::empty()
        }) + (if has_decoration {
            seq![WindowResource::Decoration]
        } else {
            Seq::<WindowResource>::empty()
        }) + seq![
            WindowResource::Toplevel,
            WindowResource::WindowSurface,
            WindowResource::Surface,
        ]);
    }
    order
}

} // verus!
