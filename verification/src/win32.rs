//! The Win32 backend's pure half: packed-word splitting, window-message
//! routing, DPI-to-scale conversion, and the UTF-16 class-name encoding.
//!
//! The message pump, window-procedure registration, and every native
//! call live with the runner; this module fixes what each message means.
use vstd::prelude::*;
use vstd::string::StrSliceExecFns;

verus! {

/// The low 16 bits of a packed message word.
pub open spec fn spec_loword(l: usize) -> u32 {
    (l & 0xffff) as u32
}

/// Bits 16..32 of a packed message word.
pub open spec fn spec_hiword(h: usize) -> u32 {
    ((h >> 16) & 0xffff) as u32
}

/// A 16-bit word reinterpreted as a signed coordinate.
pub open spec fn as_signed16(v: int) -> int {
    if v < 0x8000 {
        v
    } else {
        v - 0x10000
    }
}

pub fn loword(l: usize) -> (r: u32)
    ensures
        r == spec_loword(l),
        r <= 0xffff,
{
    proof {
        assert(l & 0xffff <= 0xffff) by (bit_vector);
    }
    (l & 0xffff) as u32
}

pub fn hiword(h: usize) -> (r: u32)
    ensures
        r == spec_hiword(h),
        r <= 0xffff,
{
    proof {
        assert((h >> 16) & 0xffff <= 0xffff) by (bit_vector);
    }
    ((h >> 16) & 0xffff) as u32
}

/// The signed x coordinate packed into the low word.
pub fn get_x(l: usize) -> (r: i16)
    ensures
        r as int == as_signed16(spec_loword(l) as int),
{
    let w = loword(l);
    if w < 0x8000 {
        w as i16
    } else {
        (w as i32 - 0x10000) as i16
    }
}

/// The signed y coordinate packed into the high word.
pub fn get_y(h: usize) -> (r: i16)
    ensures
        r as int == as_signed16(spec_hiword(h) as int),
{
    let w = hiword(h);
    if w < 0x8000 {
        w as i16
    } else {
        (w as i32 - 0x10000) as i16
    }
}

/// Scale factor in 1/120ths for a monitor DPI; 96 DPI is scale 1.
pub fn scale120_from_dpi(dpi: u32) -> (r: u32)
    requires
        dpi <= 0xffff,
    ensures
        r == dpi * 120 / 96,
{
    proof {
        assert(dpi * 120 / 96 == dpi * 5 / 4) by (nonlinear_arith)
            requires
                dpi <= 0xffff,
        ;
    }
    dpi * 5 / 4
}

/// What a window message means to the library.
#[derive(Debug, Clone, Copy, PartialEq, Eq, Structural)]
pub enum MessageAction {
    /// The window was asked to close.
    Close,
    /// The client area was resized to this physical size.
    Resize { width: u32, height: u32 },
    /// The window must repaint.
    Paint,
    /// The window moved to a monitor with this scale, in 1/120ths.
    ScaleChanged { scale120: u32 },
    /// The pointer moved to these client coordinates.
    PointerMoved { x: i32, y: i32 },
    /// The background erase is suppressed; painting covers everything.
    EraseBackground,
    /// Not a message this library interprets; the default window
    /// procedure handles it.
    Unhandled,
}

pub const WM_SIZE: u32 = 0x0005;
pub const WM_PAINT: u32 = 0x000f;
pub const WM_CLOSE: u32 = 0x0010;
pub const WM_ERASEBKGND: u32 = 0x0014;
pub const WM_MOUSEMOVE: u32 = 0x0200;
pub const WM_DPICHANGED: u32 = 0x02e0;

/// The routing table: what each window message means, given its packed
/// parameter words.
pub open spec fn spec_route_message(message: u32, wparam: usize, lparam: usize) -> MessageAction {
    if message == WM_CLOSE {
        MessageAction::Close
    } else if message == WM_SIZE {
        MessageAction::Resize { width: spec_loword(lparam), height: spec_hiword(lparam) }
    } else if message == WM_PAINT {
        MessageAction::Paint
    } else if message == WM_DPICHANGED {
        MessageAction::ScaleChanged { scale120: (spec_loword(wparam) * 120 / 96) as u32 }
    } else if message == WM_MOUSEMOVE {
        MessageAction::PointerMoved {
            x: as_signed16(spec_loword(lparam) as int) as i32,
            y: as_signed16(spec_hiword(lparam) as int) as i32,
        }
    } else if message == WM_ERASEBKGND {
        MessageAction::EraseBackground
    } else {
        MessageAction::Unhandled
    }
}

/// Interpret one window message. The new size and pointer coordinates
/// come out of the packed parameter words; a DPI change is translated
/// to the portable 1/120ths scale.
pub fn route_message(message: u32, wparam: usize, lparam: usize) -> (r: MessageAction)
    ensures
        r == spec_route_message(message, wparam, lparam),
{
    if message == WM_CLOSE {
        MessageAction::Close
    } else if message == WM_SIZE {
        MessageAction::Resize { width: loword(lparam), height: hiword(lparam) }
    } else if message == WM_PAINT {
        MessageAction::Paint
    } else if message == WM_DPICHANGED {
        MessageAction::ScaleChanged { scale120: scale120_from_dpi(loword(wparam)) }
    } else if message == WM_MOUSEMOVE {
        MessageAction::PointerMoved { x: get_x(lparam) as i32, y: get_y(lparam) as i32 }
    } else if message == WM_ERASEBKGND {
        MessageAction::EraseBackground
    } else {
        MessageAction::Unhandled
    }
}

/// The UTF-16 code units of one character.
pub open spec fn utf16_units(c: char) -> Seq<u16> {
    if (c as u32) < 0x10000 {
        seq![c as u16]
    } else {
        seq![
            (0xd800 + ((c as u32 - 0x10000) / 0x400)) as u16,
            (0xdc00 + ((c as u32 - 0x10000) % 0x400)) as u16,
        ]
    }
}

/// The UTF-16 encoding of a character sequence.
pub open spec fn utf16_of(s: Seq<char>) -> Seq<u16>
    decreases s.len(),
{
    if s.len() == 0 {
        Seq::empty()
    } else {
        utf16_units(s[0]) + utf16_of(s.drop_first())
    }
}

proof fn lemma_utf16_of_snoc(s: Seq<char>, c: char)
    ensures
        utf16_of(s.push(c)) == utf16_of(s) + utf16_units(c),
    decreases s.len(),
{
    reveal_with_fuel(utf16_of, 2);
    if s.len() == 0 {
        assert(s.push(c).drop_first() =~= Seq::<char>::empty());
        assert(utf16_of(s.push(c)) =~= utf16_of(s) + utf16_units(c));
    } else {
        lemma_utf16_of_snoc(s.drop_first(), c);
        assert(s.push(c).drop_first() =~= s.drop_first().push(c));
        assert(s.push(c)[0] == s[0]);
        assert(utf16_of(s.push(c)) =~= utf16_of(s) + utf16_units(c));
    }
}

/// A NUL-terminated UTF-16 string, the form native window-class and
/// title calls expect.
#[derive(Debug, Clone)]
pub struct PWSTRING {
    pub units: Vec<u16>,
}

impl PWSTRING {
    /// Encode a string as UTF-16 with a terminating NUL.
    pub fn from(value: &str) -> (r: PWSTRING)
        ensures
            r.units@ == utf16_of(value@).push(0u16),
    {
        let n = value.unicode_len();
        let mut units: Vec<u16> = Vec::new();
        let mut i: usize = 0;
        proof {
            assert(value@.take(0) =~= Seq::<char>::empty());
        }
        while i < n
            invariant
                0 <= i <= n,
                n == value@.len(),
                units@ == utf16_of(value@.take(i as int)),
            decreases n - i,
        {
            let c = value.get_char(i);
            proof {
                assert(value@.take(i as int + 1) =~= value@.take(i as int).push(value@[i as int]));
                lemma_utf16_of_snoc(value@.take(i as int), value@[i as int]);
            }
            let code = c as u32;
            if code < 0x10000 {
                units.push(code as u16);
                proof {
                    assert(utf16_units(c) =~= seq![c as u16]);
                    assert(units@ =~= utf16_of(value@.take(i as int)) + utf16_units(c));
                }
            } else {
                let v = code - 0x10000;
                units.push((0xd800 + v / 0x400) as u16);
                units.push((0xdc00 + v % 0x400) as u16);
                proof {
                    assert(units@ =~= utf16_of(value@.take(i as int)) + utf16_units(c));
                }
            }
            i = i + 1;
        }
        proof {
            assert(value@.take(n as int) =~= value@);
        }
        units.push(0u16);
        PWSTRING { units }
    }

    /// The number of code units, the terminating NUL included.
    pub fn len(&self) -> (r: usize)
        ensures
            r == self.units@.len(),
    {
        self.units.len()
    }
}

/// A registered window class, named by its NUL-terminated UTF-16 name.
/// Registering and unregistering the class with the OS is the runner's
/// native work.
#[derive(Debug)]
pub struct WindowClass {
    name: PWSTRING,
}

impl WindowClass {
    /// A class under the given name.
    pub fn new(name: &str) -> (r: WindowClass)
        ensures
            r.name_units() == utf16_of(name@).push(0u16),
    {
        WindowClass { name: PWSTRING::from(name) }
    }

    /// The class name's code units.
    pub closed spec fn name_units(self) -> Seq<u16> {
        self.name.units@
    }

    /// The NUL-terminated UTF-16 class name.
    pub fn name(&self) -> (r: &PWSTRING)
        ensures
            r.units@ == self.name_units(),
    {
        &self.name
    }
}

} // verus!
