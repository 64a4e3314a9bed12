//! Keyboard and mouse state forwarded to pages: the CEF modifier and
//! button flags, and the key events one key press turns into (a raw key
//! event, then one character event per UTF-16 unit of the text it types).
//! Reading window events and sending to the browser host is left to the
//! caller.

use vstd::prelude::*;

verus! {

/// CEF `EVENTFLAG_SHIFT_DOWN`.
pub const EVENTFLAG_SHIFT_DOWN: u32 = 2;
/// CEF `EVENTFLAG_CONTROL_DOWN`.
pub const EVENTFLAG_CONTROL_DOWN: u32 = 4;
/// CEF `EVENTFLAG_ALT_DOWN`.
pub const EVENTFLAG_ALT_DOWN: u32 = 8;
/// CEF `EVENTFLAG_COMMAND_DOWN`.
pub const EVENTFLAG_COMMAND_DOWN: u32 = 128;
/// CEF `EVENTFLAG_LEFT_MOUSE_BUTTON`.
pub const EVENTFLAG_LEFT_MOUSE_BUTTON: u32 = 16;
/// CEF `EVENTFLAG_MIDDLE_MOUSE_BUTTON`.
pub const EVENTFLAG_MIDDLE_MOUSE_BUTTON: u32 = 32;
/// CEF `EVENTFLAG_RIGHT_MOUSE_BUTTON`.
pub const EVENTFLAG_RIGHT_MOUSE_BUTTON: u32 = 64;

/// The modifier keys held, as CEF event flags.
pub struct KeyboardInput {
    pub modifiers: u32,
}

/// The flags for a modifier state: each held key adds its bit.
pub open spec fn modifier_flags(shift: bool, control: bool, alt: bool, super_key: bool) -> u32 {
    ((if shift { EVENTFLAG_SHIFT_DOWN } else { 0 }) + (if control {
        EVENTFLAG_CONTROL_DOWN
    } else {
        0
    }) + (if alt { EVENTFLAG_ALT_DOWN } else { 0 }) + (if super_key {
        EVENTFLAG_COMMAND_DOWN
    } else {
        0
    })) as u32
}

/// Kind of a key event sent to a page.
#[derive(Clone, Copy, Debug, PartialEq, Eq, Structural)]
pub enum KeyEventKind {
    RawKeyDown,
    KeyUp,
    Char,
}

/// One key event for the browser host.
#[derive(Clone, Copy, Debug, PartialEq, Eq, Structural)]
pub struct KeyEventData {
    pub kind: KeyEventKind,
    pub modifiers: u32,
    /// The Windows virtual-key code, or the UTF-16 unit for a character.
    pub windows_key_code: i32,
    /// The UTF-16 unit of a character event (0 otherwise).
    pub character: u16,
}

/// `char::encode_utf16`: one unit below U+10000, else a surrogate pair.
pub open spec fn utf16_units(c: char) -> Seq<u16> {
    let v = c as u32;
    if v < 0x10000 {
        seq![v as u16]
    } else {
        seq![(0xD800 + (v - 0x10000) / 0x400) as u16, (0xDC00 + (v - 0x10000) % 0x400) as u16]
    }
}

/// The UTF-16 units of `s`, in order.
pub open spec fn utf16_of(s: Seq<char>) -> Seq<u16>
    decreases s.len(),
{
    if s.len() == 0 {
        Seq::empty()
    } else {
        utf16_of(s.drop_last()) + utf16_units(s.last())
    }
}

/// A character event per unit.
pub open spec fn char_events(units: Seq<u16>, modifiers: u32) -> Seq<KeyEventData> {
    Seq::new(
        units.len(),
        |i: int|
            KeyEventData {
                kind: KeyEventKind::Char,
                modifiers,
                windows_key_code: units[i] as i32,
                character: units[i],
            },
    )
}

/// The events for one key: raw down (pressed) or up (released) with the
/// virtual-key code, then, for a press, one character event per UTF-16
/// unit of the text it types.
pub open spec fn key_events_of(modifiers: u32, vkey: i32, pressed: bool, text: Option<Seq<char>>) -> Seq<
    KeyEventData,
> {
    let first = KeyEventData {
        kind: if pressed {
            KeyEventKind::RawKeyDown
        } else {
            KeyEventKind::KeyUp
        },
        modifiers,
        windows_key_code: vkey,
        character: 0,
    };
    seq![first] + if pressed && text is Some {
        char_events(utf16_of(text->0), modifiers)
    } else {
        Seq::empty()
    }
}

impl KeyboardInput {
    pub fn new() -> (r: Self)
        ensures
            r.modifiers == 0,
    {
        KeyboardInput { modifiers: 0 }
    }

    /// Records which modifier keys are held.
    pub fn modifiers_changed(&mut self, shift: bool, control: bool, alt: bool, super_key: bool)
        ensures
            final(self).modifiers == modifier_flags(shift, control, alt, super_key),
    {
        let mut m: u32 = 0;
        if shift {
            m = m + EVENTFLAG_SHIFT_DOWN;
        }
        if control {
            m = m + EVENTFLAG_CONTROL_DOWN;
        }
        if alt {
            m = m + EVENTFLAG_ALT_DOWN;
        }
        if super_key {
            m = m + EVENTFLAG_COMMAND_DOWN;
        }
        self.modifiers = m;
    }

    /// The events to send for a key with this virtual-key code.
    pub fn key_event(&self, vkey: i32, pressed: bool, text: Option<&str>) -> (r: Vec<KeyEventData>)
        ensures
            r@ == key_events_of(
                self.modifiers,
                vkey,
                pressed,
                match text {
                    Some(t) => Some(t@),
                    None => None,
                },
            ),
    {
        let mut out: Vec<KeyEventData> = Vec::new();
        out.push(
            KeyEventData {
                kind: if pressed {
                    KeyEventKind::RawKeyDown
                } else {
                    KeyEventKind::KeyUp
                },
                modifiers: self.modifiers,
                windows_key_code: vkey,
                character: 0,
            },
        );
        if pressed {
            if let Some(t) = text {
                let cs = crate::text::chars_of(t);
                let ghost first = out@;
                let mut i: usize = 0;
                assert(cs@.take(0) =~= Seq::<char>::empty());
                assert(char_events(utf16_of(cs@.take(0)), self.modifiers) =~= Seq::<
                    KeyEventData,
                >::empty());
                while i < cs.len()
                    invariant
                        i <= cs@.len(),
                        first.len() == 1,
                        out@ == first + char_events(utf16_of(cs@.take(i as int)), self.modifiers),
                    decreases cs@.len() - i,
                {
                    let ghost before = utf16_of(cs@.take(i as int));
                    let units = encode_utf16(cs[i]);
                    let mut k: usize = 0;
                    while k < units.len()
                        invariant
                            k <= units@.len(),
                            first.len() == 1,
                            out@ == first + char_events(before + units@.take(k as int), self.modifiers),
                        decreases units@.len() - k,
                    {
                        let u = units[k];
                        out.push(
                            KeyEventData {
                                kind: KeyEventKind::Char,
                                modifiers: self.modifiers,
                                windows_key_code: u as i32,
                                character: u,
                            },
                        );
                        assert(before + units@.take(k + 1) == (before + units@.take(k as int)).push(u));
                        assert(char_events((before + units@.take(k as int)).push(u), self.modifiers)
                            =~= char_events(before + units@.take(k as int), self.modifiers).push(
                            KeyEventData {
                                kind: KeyEventKind::Char,
                                modifiers: self.modifiers,
                                windows_key_code: u as i32,
                                character: u,
                            },
                        ));
                        k = k + 1;
                    }
                    assert(units@.take(units@.len() as int) == units@);
                    assert(cs@.take(i + 1).drop_last() == cs@.take(i as int));
                    i = i + 1;
                }
                assert(cs@.take(cs@.len() as int) == cs@);
            }
        }
        out
    }
}

/// `char::encode_utf16` for one character.
pub fn encode_utf16(c: char) -> (r: Vec<u16>)
    ensures
        r@ == utf16_units(c),
{
    let v = c as u32;
    let mut r: Vec<u16> = Vec::new();
    if v < 0x10000 {
        r.push(v as u16);
    } else {
        let w = v - 0x10000;
        assert(v <= 0x10FFFF) by {
            vstd::utf8::char_is_scalar(c);
        }
        r.push((0xD800 + w / 0x400) as u16);
        r.push((0xDC00 + w % 0x400) as u16);
    }
    r
}

/// A mouse button CEF knows about.
#[derive(Clone, Copy, Debug, PartialEq, Eq, Structural)]
pub enum MouseButtonKind {
    Left,
    Middle,
    Right,
}

/// The held-button flag of a button.
pub open spec fn button_flag(b: MouseButtonKind) -> u32 {
    match b {
        MouseButtonKind::Left => EVENTFLAG_LEFT_MOUSE_BUTTON,
        MouseButtonKind::Middle => EVENTFLAG_MIDDLE_MOUSE_BUTTON,
        MouseButtonKind::Right => EVENTFLAG_RIGHT_MOUSE_BUTTON,
    }
}

/// A mouse event for the browser host.
#[derive(Clone, Copy, Debug, PartialEq, Eq, Structural)]
pub struct MouseEventData {
    pub x: i32,
    pub y: i32,
    pub modifiers: u32,
}

/// The cursor (in CEF's logical pixels) and the buttons held.
pub struct MouseInput {
    pub cursor_logical: (i32, i32),
    /// Flags of the buttons currently held (CEF wants them on moves too).
    pub buttons_down: u32,
}

impl MouseInput {
    pub fn new() -> (r: Self)
        ensures
            r.cursor_logical == (0i32, 0i32),
            r.buttons_down == 0,
    {
        MouseInput { cursor_logical: (0, 0), buttons_down: 0 }
    }

    /// The event describing the current cursor and held buttons.
    pub fn event(&self) -> (r: MouseEventData)
        ensures
            r == (MouseEventData {
                x: self.cursor_logical.0,
                y: self.cursor_logical.1,
                modifiers: self.buttons_down,
            }),
    {
        MouseEventData { x: self.cursor_logical.0, y: self.cursor_logical.1, modifiers: self.buttons_down }
    }

    /// Moves the cursor (already in logical pixels).
    pub fn cursor_moved(&mut self, x: i32, y: i32) -> (r: MouseEventData)
        ensures
            final(self).cursor_logical == (x, y),
            final(self).buttons_down == old(self).buttons_down,
            r == (MouseEventData { x, y, modifiers: old(self).buttons_down }),
    {
        self.cursor_logical = (x, y);
        self.event()
    }

    /// The cursor left the page: the event to send with the leave flag,
    /// at the last position and with the held buttons.
    pub fn cursor_left(&self) -> (r: MouseEventData)
        ensures
            r == (MouseEventData {
                x: self.cursor_logical.0,
                y: self.cursor_logical.1,
                modifiers: self.buttons_down,
            }),
    {
        self.event()
    }

    /// A press or release: the button's flag is set or cleared, and the
    /// click event carries the new state.
    pub fn button(&mut self, button: MouseButtonKind, pressed: bool) -> (r: MouseEventData)
        ensures
            final(self).buttons_down == if pressed {
                old(self).buttons_down | button_flag(button)
            } else {
                old(self).buttons_down & !button_flag(button)
            },
            final(self).cursor_logical == old(self).cursor_logical,
            r == (MouseEventData {
                x: old(self).cursor_logical.0,
                y: old(self).cursor_logical.1,
                modifiers: final(self).buttons_down,
            }),
    {
        let flag = match button {
            MouseButtonKind::Left => EVENTFLAG_LEFT_MOUSE_BUTTON,
            MouseButtonKind::Middle => EVENTFLAG_MIDDLE_MOUSE_BUTTON,
            MouseButtonKind::Right => EVENTFLAG_RIGHT_MOUSE_BUTTON,
        };
        if pressed {
            self.buttons_down = self.buttons_down | flag;
        } else {
            self.buttons_down = self.buttons_down & !flag;
        }
        self.event()
    }
}

/// Pressing then releasing a button leaves its flag clear, and other
/// buttons' flags as they were.
pub proof fn law_press_release(held: u32, b: MouseButtonKind, other: MouseButtonKind)
    requires
        other != b,
    ensures
        ((held | button_flag(b)) & !button_flag(b)) & button_flag(b) == 0,
        ((held | button_flag(b)) & !button_flag(b)) & button_flag(other) == held & button_flag(
            other,
        ),
{
    let f = button_flag(b);
    let g = button_flag(other);
    assert(f == 16 || f == 32 || f == 64);
    assert(g == 16 || g == 32 || g == 64);
    assert(f != g);
    assert(((held | f) & !f) & f == 0) by (bit_vector);
    assert((f == 16 || f == 32 || f == 64) && (g == 16 || g == 32 || g == 64) && f != g ==> ((held
        | f) & !f) & g == held & g) by (bit_vector);
}

} // verus!
