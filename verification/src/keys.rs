//! Keys: the Windows virtual-key codes pages receive, and the canvas
//! shortcuts that are handled by the browser instead of the page.

use vstd::prelude::*;

verus! {

/// A physical key (US layout names); `Other` for keys pages are not sent.
#[derive(Clone, Copy, Debug, PartialEq, Eq, Structural)]
pub enum Key {
    KeyA,
    KeyB,
    KeyC,
    KeyD,
    KeyE,
    KeyF,
    KeyG,
    KeyH,
    KeyI,
    KeyJ,
    KeyK,
    KeyL,
    KeyM,
    KeyN,
    KeyO,
    KeyP,
    KeyQ,
    KeyR,
    KeyS,
    KeyT,
    KeyU,
    KeyV,
    KeyW,
    KeyX,
    KeyY,
    KeyZ,
    Digit0,
    Digit1,
    Digit2,
    Digit3,
    Digit4,
    Digit5,
    Digit6,
    Digit7,
    Digit8,
    Digit9,
    Backspace,
    Tab,
    Enter,
    NumpadEnter,
    ShiftLeft,
    ShiftRight,
    ControlLeft,
    ControlRight,
    AltLeft,
    AltRight,
    Escape,
    Space,
    PageUp,
    PageDown,
    End,
    Home,
    ArrowLeft,
    ArrowUp,
    ArrowRight,
    ArrowDown,
    Delete,
    SuperLeft,
    SuperRight,
    F1,
    F2,
    F3,
    F4,
    F5,
    F6,
    F7,
    F8,
    F9,
    F10,
    F11,
    F12,
    Semicolon,
    Equal,
    Comma,
    Minus,
    Period,
    Slash,
    Backquote,
    BracketLeft,
    Backslash,
    BracketRight,
    Quote,
    Other,
}

/// The Windows virtual-key code Chromium expects for a key; punctuation
/// codes assume a US layout. Keys without one are not forwarded.
pub open spec fn vkey_spec(key: Key) -> Option<i32> {
    match key {
        Key::KeyA => Some(0x41),
        Key::KeyB => Some(0x42),
        Key::KeyC => Some(0x43),
        Key::KeyD => Some(0x44),
        Key::KeyE => Some(0x45),
        Key::KeyF => Some(0x46),
        Key::KeyG => Some(0x47),
        Key::KeyH => Some(0x48),
        Key::KeyI => Some(0x49),
        Key::KeyJ => Some(0x4A),
        Key::KeyK => Some(0x4B),
        Key::KeyL => Some(0x4C),
        Key::KeyM => Some(0x4D),
        Key::KeyN => Some(0x4E),
        Key::KeyO => Some(0x4F),
        Key::KeyP => Some(0x50),
        Key::KeyQ => Some(0x51),
        Key::KeyR => Some(0x52),
        Key::KeyS => Some(0x53),
        Key::KeyT => Some(0x54),
        Key::KeyU => Some(0x55),
        Key::KeyV => Some(0x56),
        Key::KeyW => Some(0x57),
        Key::KeyX => Some(0x58),
        Key::KeyY => Some(0x59),
        Key::KeyZ => Some(0x5A),
        Key::Digit0 => Some(0x30),
        Key::Digit1 => Some(0x31),
        Key::Digit2 => Some(0x32),
        Key::Digit3 => Some(0x33),
        Key::Digit4 => Some(0x34),
        Key::Digit5 => Some(0x35),
        Key::Digit6 => Some(0x36),
        Key::Digit7 => Some(0x37),
        Key::Digit8 => Some(0x38),
        Key::Digit9 => Some(0x39),
        Key::Backspace => Some(0x8),
        Key::Tab => Some(0x9),
        Key::Enter => Some(0xD),
        Key::NumpadEnter => Some(0xD),
        Key::ShiftLeft => Some(0x10),
        Key::ShiftRight => Some(0x10),
        Key::ControlLeft => Some(0x11),
        Key::ControlRight => Some(0x11),
        Key::AltLeft => Some(0x12),
        Key::AltRight => Some(0x12),
        Key::Escape => Some(0x1B),
        Key::Space => Some(0x20),
        Key::PageUp => Some(0x21),
        Key::PageDown => Some(0x22),
        Key::End => Some(0x23),
        Key::Home => Some(0x24),
        Key::ArrowLeft => Some(0x25),
        Key::ArrowUp => Some(0x26),
        Key::ArrowRight => Some(0x27),
        Key::ArrowDown => Some(0x28),
        Key::Delete => Some(0x2E),
        Key::SuperLeft => Some(0x5B),
        Key::SuperRight => Some(0x5C),
        Key::F1 => Some(0x70),
        Key::F2 => Some(0x71),
        Key::F3 => Some(0x72),
        Key::F4 => Some(0x73),
        Key::F5 => Some(0x74),
        Key::F6 => Some(0x75),
        Key::F7 => Some(0x76),
        Key::F8 => Some(0x77),
        Key::F9 => Some(0x78),
        Key::F10 => Some(0x79),
        Key::F11 => Some(0x7A),
        Key::F12 => Some(0x7B),
        Key::Semicolon => Some(0xBA),
        Key::Equal => Some(0xBB),
        Key::Comma => Some(0xBC),
        Key::Minus => Some(0xBD),
        Key::Period => Some(0xBE),
        Key::Slash => Some(0xBF),
        Key::Backquote => Some(0xC0),
        Key::BracketLeft => Some(0xDB),
        Key::Backslash => Some(0xDC),
        Key::BracketRight => Some(0xDD),
        Key::Quote => Some(0xDE),
        Key::Other => None,
    }
}

pub fn vkey_of(key: Key) -> (r: Option<i32>)
    ensures
        r == vkey_spec(key),
{
    match key {
        Key::KeyA => Some(0x41),
        Key::KeyB => Some(0x42),
        Key::KeyC => Some(0x43),
        Key::KeyD => Some(0x44),
        Key::KeyE => Some(0x45),
        Key::KeyF => Some(0x46),
        Key::KeyG => Some(0x47),
        Key::KeyH => Some(0x48),
        Key::KeyI => Some(0x49),
        Key::KeyJ => Some(0x4A),
        Key::KeyK => Some(0x4B),
        Key::KeyL => Some(0x4C),
        Key::KeyM => Some(0x4D),
        Key::KeyN => Some(0x4E),
        Key::KeyO => Some(0x4F),
        Key::KeyP => Some(0x50),
        Key::KeyQ => Some(0x51),
        Key::KeyR => Some(0x52),
        Key::KeyS => Some(0x53),
        Key::KeyT => Some(0x54),
        Key::KeyU => Some(0x55),
        Key::KeyV => Some(0x56),
        Key::KeyW => Some(0x57),
        Key::KeyX => Some(0x58),
        Key::KeyY => Some(0x59),
        Key::KeyZ => Some(0x5A),
        Key::Digit0 => Some(0x30),
        Key::Digit1 => Some(0x31),
        Key::Digit2 => Some(0x32),
        Key::Digit3 => Some(0x33),
        Key::Digit4 => Some(0x34),
        Key::Digit5 => Some(0x35),
        Key::Digit6 => Some(0x36),
        Key::Digit7 => Some(0x37),
        Key::Digit8 => Some(0x38),
        Key::Digit9 => Some(0x39),
        Key::Backspace => Some(0x8),
        Key::Tab => Some(0x9),
        Key::Enter => Some(0xD),
        Key::NumpadEnter => Some(0xD),
        Key::ShiftLeft => Some(0x10),
        Key::ShiftRight => Some(0x10),
        Key::ControlLeft => Some(0x11),
        Key::ControlRight => Some(0x11),
        Key::AltLeft => Some(0x12),
        Key::AltRight => Some(0x12),
        Key::Escape => Some(0x1B),
        Key::Space => Some(0x20),
        Key::PageUp => Some(0x21),
        Key::PageDown => Some(0x22),
        Key::End => Some(0x23),
        Key::Home => Some(0x24),
        Key::ArrowLeft => Some(0x25),
        Key::ArrowUp => Some(0x26),
        Key::ArrowRight => Some(0x27),
        Key::ArrowDown => Some(0x28),
        Key::Delete => Some(0x2E),
        Key::SuperLeft => Some(0x5B),
        Key::SuperRight => Some(0x5C),
        Key::F1 => Some(0x70),
        Key::F2 => Some(0x71),
        Key::F3 => Some(0x72),
        Key::F4 => Some(0x73),
        Key::F5 => Some(0x74),
        Key::F6 => Some(0x75),
        Key::F7 => Some(0x76),
        Key::F8 => Some(0x77),
        Key::F9 => Some(0x78),
        Key::F10 => Some(0x79),
        Key::F11 => Some(0x7A),
        Key::F12 => Some(0x7B),
        Key::Semicolon => Some(0xBA),
        Key::Equal => Some(0xBB),
        Key::Comma => Some(0xBC),
        Key::Minus => Some(0xBD),
        Key::Period => Some(0xBE),
        Key::Slash => Some(0xBF),
        Key::Backquote => Some(0xC0),
        Key::BracketLeft => Some(0xDB),
        Key::Backslash => Some(0xDC),
        Key::BracketRight => Some(0xDD),
        Key::Quote => Some(0xDE),
        Key::Other => None,
    }
}

/// A canvas shortcut: what the browser does instead of forwarding the key.
#[derive(Clone, Copy, Debug, PartialEq, Eq, Structural)]
pub enum HotkeyCommand {
    OpenHelp,
    GoBack,
    GoForward,
    ReopenClosed,
    OpenNew,
    OpenWorkspaces,
    CloseTopmost,
    AddWorkspace,
    SwitchWorkspace(u32),
    ToggleReaderMode,
    Reload,
    Paste,
    CopyUrl,
    ZoomIn,
    ZoomOut,
    ZoomReset,
    ResetViewport,
    BookmarkFocused,
    OpenBookmarks,
    OpenDownloads,
    OpenHistory,
    OpenSwitcher,
    OpenSettings,
    /// Re-read userscripts and userstyles, then open their list.
    ReloadUserscripts,
    OpenPasswords,
    AutoLayout,
    /// Move focus to the next page (`true`: the previous one).
    RotateFocus(bool),
    CycleTheme,
    ToggleCanvasZoom,
}

/// The shortcut table with Ctrl held.
pub open spec fn control_hotkey(key: Key, shift: bool) -> Option<HotkeyCommand> {
    match key {
        Key::KeyT => Some(if shift { HotkeyCommand::ReopenClosed } else { HotkeyCommand::OpenNew }),
        Key::KeyW => Some(if shift { HotkeyCommand::OpenWorkspaces } else { HotkeyCommand::CloseTopmost }),
        Key::KeyN => if !shift { Some(HotkeyCommand::AddWorkspace) } else { None },
        Key::Digit1 => if !shift { Some(HotkeyCommand::SwitchWorkspace(1)) } else { None },
        Key::Digit2 => if !shift { Some(HotkeyCommand::SwitchWorkspace(2)) } else { None },
        Key::Digit3 => if !shift { Some(HotkeyCommand::SwitchWorkspace(3)) } else { None },
        Key::Digit4 => if !shift { Some(HotkeyCommand::SwitchWorkspace(4)) } else { None },
        Key::Digit5 => if !shift { Some(HotkeyCommand::SwitchWorkspace(5)) } else { None },
        Key::Digit6 => if !shift { Some(HotkeyCommand::SwitchWorkspace(6)) } else { None },
        Key::Digit7 => if !shift { Some(HotkeyCommand::SwitchWorkspace(7)) } else { None },
        Key::Digit8 => if !shift { Some(HotkeyCommand::SwitchWorkspace(8)) } else { None },
        Key::Digit9 => if !shift { Some(HotkeyCommand::SwitchWorkspace(9)) } else { None },
        Key::KeyR => Some(if shift { HotkeyCommand::ToggleReaderMode } else { HotkeyCommand::Reload }),
        Key::KeyV => Some(HotkeyCommand::Paste),
        Key::KeyC => if shift { Some(HotkeyCommand::CopyUrl) } else { None },
        Key::Equal => Some(HotkeyCommand::ZoomIn),
        Key::Minus => Some(HotkeyCommand::ZoomOut),
        Key::Digit0 => Some(if shift { HotkeyCommand::ResetViewport } else { HotkeyCommand::ZoomReset }),
        Key::KeyD => Some(HotkeyCommand::BookmarkFocused),
        Key::KeyB => Some(HotkeyCommand::OpenBookmarks),
        Key::KeyJ => Some(HotkeyCommand::OpenDownloads),
        Key::KeyH => Some(HotkeyCommand::OpenHistory),
        Key::KeyK => Some(HotkeyCommand::OpenSwitcher),
        Key::Slash => Some(HotkeyCommand::OpenHelp),
        Key::Comma => Some(HotkeyCommand::OpenSettings),
        Key::KeyU => if shift { Some(HotkeyCommand::ReloadUserscripts) } else { None },
        Key::KeyP => if shift { Some(HotkeyCommand::OpenPasswords) } else { None },
        Key::KeyG => Some(HotkeyCommand::AutoLayout),
        Key::Tab => Some(HotkeyCommand::RotateFocus(shift)),
        Key::Space => Some(if shift { HotkeyCommand::CycleTheme } else { HotkeyCommand::ToggleCanvasZoom }),
        _ => None,
    }
}

/// What a key event does at canvas level: only presses count; F1 opens
/// help; Alt+Left/Right (without Ctrl) go back/forward; everything else
/// needs Ctrl. `None` means the key goes to the page.
pub open spec fn hotkey_spec(pressed: bool, key: Key, shift: bool, control: bool, alt: bool) -> Option<
    HotkeyCommand,
> {
    if !pressed {
        None
    } else if key == Key::F1 {
        Some(HotkeyCommand::OpenHelp)
    } else if alt && !control && key == Key::ArrowLeft {
        Some(HotkeyCommand::GoBack)
    } else if alt && !control && key == Key::ArrowRight {
        Some(HotkeyCommand::GoForward)
    } else if !control {
        None
    } else {
        control_hotkey(key, shift)
    }
}

/// The canvas shortcut for a key event, if it is one.
pub fn handle(pressed: bool, key: Key, shift: bool, control: bool, alt: bool) -> (r: Option<HotkeyCommand>)
    ensures
        r == hotkey_spec(pressed, key, shift, control, alt),
{
    if !pressed {
        return None;
    }
    if key == Key::F1 {
        return Some(HotkeyCommand::OpenHelp);
    }
    if alt && !control {
        if key == Key::ArrowLeft {
            return Some(HotkeyCommand::GoBack);
        }
        if key == Key::ArrowRight {
            return Some(HotkeyCommand::GoForward);
        }
    }
    if !control {
        return None;
    }
    match key {
        Key::KeyT => Some(if shift { HotkeyCommand::ReopenClosed } else { HotkeyCommand::OpenNew }),
        Key::KeyW => Some(if shift { HotkeyCommand::OpenWorkspaces } else { HotkeyCommand::CloseTopmost }),
        Key::KeyN => if !shift { Some(HotkeyCommand::AddWorkspace) } else { None },
        Key::Digit1 => if !shift { Some(HotkeyCommand::SwitchWorkspace(1)) } else { None },
        Key::Digit2 => if !shift { Some(HotkeyCommand::SwitchWorkspace(2)) } else { None },
        Key::Digit3 => if !shift { Some(HotkeyCommand::SwitchWorkspace(3)) } else { None },
        Key::Digit4 => if !shift { Some(HotkeyCommand::SwitchWorkspace(4)) } else { None },
        Key::Digit5 => if !shift { Some(HotkeyCommand::SwitchWorkspace(5)) } else { None },
        Key::Digit6 => if !shift { Some(HotkeyCommand::SwitchWorkspace(6)) } else { None },
        Key::Digit7 => if !shift { Some(HotkeyCommand::SwitchWorkspace(7)) } else { None },
        Key::Digit8 => if !shift { Some(HotkeyCommand::SwitchWorkspace(8)) } else { None },
        Key::Digit9 => if !shift { Some(HotkeyCommand::SwitchWorkspace(9)) } else { None },
        Key::KeyR => Some(if shift { HotkeyCommand::ToggleReaderMode } else { HotkeyCommand::Reload }),
        Key::KeyV => Some(HotkeyCommand::Paste),
        Key::KeyC => if shift { Some(HotkeyCommand::CopyUrl) } else { None },
        Key::Equal => Some(HotkeyCommand::ZoomIn),
        Key::Minus => Some(HotkeyCommand::ZoomOut),
        Key::Digit0 => Some(if shift { HotkeyCommand::ResetViewport } else { HotkeyCommand::ZoomReset }),
        Key::KeyD => Some(HotkeyCommand::BookmarkFocused),
        Key::KeyB => Some(HotkeyCommand::OpenBookmarks),
        Key::KeyJ => Some(HotkeyCommand::OpenDownloads),
        Key::KeyH => Some(HotkeyCommand::OpenHistory),
        Key::KeyK => Some(HotkeyCommand::OpenSwitcher),
        Key::Slash => Some(HotkeyCommand::OpenHelp),
        Key::Comma => Some(HotkeyCommand::OpenSettings),
        Key::KeyU => if shift { Some(HotkeyCommand::ReloadUserscripts) } else { None },
        Key::KeyP => if shift { Some(HotkeyCommand::OpenPasswords) } else { None },
        Key::KeyG => Some(HotkeyCommand::AutoLayout),
        Key::Tab => Some(HotkeyCommand::RotateFocus(shift)),
        Key::Space => Some(if shift { HotkeyCommand::CycleTheme } else { HotkeyCommand::ToggleCanvasZoom }),
        _ => None,
    }
}

/// Releases never trigger shortcuts, and without Ctrl only F1 and
/// Alt+Left/Right do.
pub proof fn law_hotkeys_need_press_and_ctrl(key: Key, shift: bool, control: bool, alt: bool)
    ensures
        hotkey_spec(false, key, shift, control, alt) is None,
        !control && key != Key::F1 && !(alt && (key == Key::ArrowLeft || key == Key::ArrowRight))
            ==> hotkey_spec(true, key, shift, control, alt) is None,
{
}

/// The Ctrl shortcut table, with or without Alt: Ctrl+T new page
/// (+Shift: reopen closed), Ctrl+W close the topmost page (+Shift: the
/// workspaces page), Ctrl+N new workspace, Ctrl+1..9 switch workspace,
/// Ctrl+R reload (+Shift: reader mode), Ctrl+V paste, Ctrl+Shift+C copy URL,
/// Ctrl+= / Ctrl+- / Ctrl+0 page zoom (+Shift+0: reset the canvas view),
/// Ctrl+D bookmark, Ctrl+B/J/H/K bookmarks, downloads, history, switcher,
/// Ctrl+/ help, Ctrl+, settings, Ctrl+Shift+U userscripts, Ctrl+Shift+P
/// passwords, Ctrl+G auto layout, Ctrl+Tab focus (+Shift: backwards),
/// Ctrl+Space canvas zoom (+Shift: next theme); F1 is help either way.
pub proof fn law_ctrl_shortcut_table(alt: bool)
    ensures
        hotkey_spec(true, Key::KeyT, false, true, alt) == Some(HotkeyCommand::OpenNew),
        hotkey_spec(true, Key::KeyT, true, true, alt) == Some(HotkeyCommand::ReopenClosed),
        hotkey_spec(true, Key::KeyW, false, true, alt) == Some(HotkeyCommand::CloseTopmost),
        hotkey_spec(true, Key::KeyW, true, true, alt) == Some(HotkeyCommand::OpenWorkspaces),
        hotkey_spec(true, Key::KeyN, false, true, alt) == Some(HotkeyCommand::AddWorkspace),
        hotkey_spec(true, Key::KeyN, true, true, alt) is None,
        hotkey_spec(true, Key::Digit1, false, true, alt) == Some(HotkeyCommand::SwitchWorkspace(1)),
        hotkey_spec(true, Key::Digit1, true, true, alt) is None,
        hotkey_spec(true, Key::Digit2, false, true, alt) == Some(HotkeyCommand::SwitchWorkspace(2)),
        hotkey_spec(true, Key::Digit2, true, true, alt) is None,
        hotkey_spec(true, Key::Digit3, false, true, alt) == Some(HotkeyCommand::SwitchWorkspace(3)),
        hotkey_spec(true, Key::Digit3, true, true, alt) is None,
        hotkey_spec(true, Key::Digit4, false, true, alt) == Some(HotkeyCommand::SwitchWorkspace(4)),
        hotkey_spec(true, Key::Digit4, true, true, alt) is None,
        hotkey_spec(true, Key::Digit5, false, true, alt) == Some(HotkeyCommand::SwitchWorkspace(5)),
        hotkey_spec(true, Key::Digit5, true, true, alt) is None,
        hotkey_spec(true, Key::Digit6, false, true, alt) == Some(HotkeyCommand::SwitchWorkspace(6)),
        hotkey_spec(true, Key::Digit6, true, true, alt) is None,
        hotkey_spec(true, Key::Digit7, false, true, alt) == Some(HotkeyCommand::SwitchWorkspace(7)),
        hotkey_spec(true, Key::Digit7, true, true, alt) is None,
        hotkey_spec(true, Key::Digit8, false, true, alt) == Some(HotkeyCommand::SwitchWorkspace(8)),
        hotkey_spec(true, Key::Digit8, true, true, alt) is None,
        hotkey_spec(true, Key::Digit9, false, true, alt) == Some(HotkeyCommand::SwitchWorkspace(9)),
        hotkey_spec(true, Key::Digit9, true, true, alt) is None,
        hotkey_spec(true, Key::KeyR, false, true, alt) == Some(HotkeyCommand::Reload),
        hotkey_spec(true, Key::KeyR, true, true, alt) == Some(HotkeyCommand::ToggleReaderMode),
        hotkey_spec(true, Key::KeyV, false, true, alt) == Some(HotkeyCommand::Paste),
        hotkey_spec(true, Key::KeyV, true, true, alt) == Some(HotkeyCommand::Paste),
        hotkey_spec(true, Key::KeyC, false, true, alt) is None,
        hotkey_spec(true, Key::KeyC, true, true, alt) == Some(HotkeyCommand::CopyUrl),
        hotkey_spec(true, Key::Equal, false, true, alt) == Some(HotkeyCommand::ZoomIn),
        hotkey_spec(true, Key::Equal, true, true, alt) == Some(HotkeyCommand::ZoomIn),
        hotkey_spec(true, Key::Minus, false, true, alt) == Some(HotkeyCommand::ZoomOut),
        hotkey_spec(true, Key::Minus, true, true, alt) == Some(HotkeyCommand::ZoomOut),
        hotkey_spec(true, Key::Digit0, false, true, alt) == Some(HotkeyCommand::ZoomReset),
        hotkey_spec(true, Key::Digit0, true, true, alt) == Some(HotkeyCommand::ResetViewport),
        hotkey_spec(true, Key::KeyD, false, true, alt) == Some(HotkeyCommand::BookmarkFocused),
        hotkey_spec(true, Key::KeyD, true, true, alt) == Some(HotkeyCommand::BookmarkFocused),
        hotkey_spec(true, Key::KeyB, false, true, alt) == Some(HotkeyCommand::OpenBookmarks),
        hotkey_spec(true, Key::KeyB, true, true, alt) == Some(HotkeyCommand::OpenBookmarks),
        hotkey_spec(true, Key::KeyJ, false, true, alt) == Some(HotkeyCommand::OpenDownloads),
        hotkey_spec(true, Key::KeyJ, true, true, alt) == Some(HotkeyCommand::OpenDownloads),
        hotkey_spec(true, Key::KeyH, false, true, alt) == Some(HotkeyCommand::OpenHistory),
        hotkey_spec(true, Key::KeyH, true, true, alt) == Some(HotkeyCommand::OpenHistory),
        hotkey_spec(true, Key::KeyK, false, true, alt) == Some(HotkeyCommand::OpenSwitcher),
        hotkey_spec(true, Key::KeyK, true, true, alt) == Some(HotkeyCommand::OpenSwitcher),
        hotkey_spec(true, Key::Slash, false, true, alt) == Some(HotkeyCommand::OpenHelp),
        hotkey_spec(true, Key::Slash, true, true, alt) == Some(HotkeyCommand::OpenHelp),
        hotkey_spec(true, Key::Comma, false, true, alt) == Some(HotkeyCommand::OpenSettings),
        hotkey_spec(true, Key::Comma, true, true, alt) == Some(HotkeyCommand::OpenSettings),
        hotkey_spec(true, Key::KeyU, false, true, alt) is None,
        hotkey_spec(true, Key::KeyU, true, true, alt) == Some(HotkeyCommand::ReloadUserscripts),
        hotkey_spec(true, Key::KeyP, false, true, alt) is None,
        hotkey_spec(true, Key::KeyP, true, true, alt) == Some(HotkeyCommand::OpenPasswords),
        hotkey_spec(true, Key::KeyG, false, true, alt) == Some(HotkeyCommand::AutoLayout),
        hotkey_spec(true, Key::KeyG, true, true, alt) == Some(HotkeyCommand::AutoLayout),
        hotkey_spec(true, Key::Tab, false, true, alt) == Some(HotkeyCommand::RotateFocus(false)),
        hotkey_spec(true, Key::Tab, true, true, alt) == Some(HotkeyCommand::RotateFocus(true)),
        hotkey_spec(true, Key::Space, false, true, alt) == Some(HotkeyCommand::ToggleCanvasZoom),
        hotkey_spec(true, Key::Space, true, true, alt) == Some(HotkeyCommand::CycleTheme),
        hotkey_spec(true, Key::F1, false, false, alt) == Some(HotkeyCommand::OpenHelp),
        hotkey_spec(true, Key::ArrowLeft, false, false, true) == Some(HotkeyCommand::GoBack),
        hotkey_spec(true, Key::ArrowRight, false, false, true) == Some(HotkeyCommand::GoForward),
{
}

} // verus!
