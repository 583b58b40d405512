use vstd::prelude::*;

verus! {

/// An RGBA color with one byte per channel.
#[derive(Clone, Copy, Debug, PartialEq, Eq, Structural)]
pub struct Color {
    pub r: u8,
    pub g: u8,
    pub b: u8,
    pub a: u8,
}

/// Window configuration flags, each one bit of the flag word.
#[derive(Clone, Copy, Debug, PartialEq, Eq, Structural)]
pub enum ConfigFlags {
    /// Set to try enabling V-Sync on GPU
    FlagVsyncHint,
    /// Set to run program in fullscreen
    FlagFullscreenMode,
    /// Set to allow resizable window
    FlagWindowResizable,
    /// Set to disable window decoration (frame and buttons)
    FlagWindowUndecorated,
    /// Set to hide window
    FlagWindowHidden,
    /// Set to minimize window (iconify)
    FlagWindowMinimized,
    /// Set to maximize window (expanded to monitor)
    FlagWindowMaximized,
    /// Set to window non focused
    FlagWindowUnfocused,
    /// Set to window always on top
    FlagWindowTopmost,
    /// Set to allow windows running while minimized
    FlagWindowAlwaysRun,
    /// Set to allow transparent framebuffer
    FlagWindowTransparent,
    /// Set to support HighDPI
    FlagWindowHighdpi,
    /// Set to support mouse passthrough, only supported when FLAG_WINDOW_UNDECORATED
    FlagWindowMousePassthrough,
    /// Set to run program in borderless windowed mode
    FlagBorderlessWindowedMode,
    /// Set to try enabling MSAA 4X
    FlagMsaa4xHint,
    /// Set to try enabling interlaced video format (for V3D)
    FlagInterlacedHint,
}

impl ConfigFlags {
    /// The flag's bit in the configuration word.
    pub open spec fn spec_bits(self) -> u32 {
        match self {
            ConfigFlags::FlagVsyncHint => 0x00000040,
            ConfigFlags::FlagFullscreenMode => 0x00000002,
            ConfigFlags::FlagWindowResizable => 0x00000004,
            ConfigFlags::FlagWindowUndecorated => 0x00000008,
            ConfigFlags::FlagWindowHidden => 0x00000080,
            ConfigFlags::FlagWindowMinimized => 0x00000200,
            ConfigFlags::FlagWindowMaximized => 0x00000400,
            ConfigFlags::FlagWindowUnfocused => 0x00000800,
            ConfigFlags::FlagWindowTopmost => 0x00001000,
            ConfigFlags::FlagWindowAlwaysRun => 0x00000100,
            ConfigFlags::FlagWindowTransparent => 0x00000010,
            ConfigFlags::FlagWindowHighdpi => 0x00002000,
            ConfigFlags::FlagWindowMousePassthrough => 0x00004000,
            ConfigFlags::FlagBorderlessWindowedMode => 0x00008000,
            ConfigFlags::FlagMsaa4xHint => 0x00000020,
            ConfigFlags::FlagInterlacedHint => 0x00010000,
        }
    }

    pub fn bits(&self) -> (r: u32)
        ensures
            r == self.spec_bits(),
    {
        match self {
            ConfigFlags::FlagVsyncHint => 0x00000040,
            ConfigFlags::FlagFullscreenMode => 0x00000002,
            ConfigFlags::FlagWindowResizable => 0x00000004,
            ConfigFlags::FlagWindowUndecorated => 0x00000008,
            ConfigFlags::FlagWindowHidden => 0x00000080,
            ConfigFlags::FlagWindowMinimized => 0x00000200,
            ConfigFlags::FlagWindowMaximized => 0x00000400,
            ConfigFlags::FlagWindowUnfocused => 0x00000800,
            ConfigFlags::FlagWindowTopmost => 0x00001000,
            ConfigFlags::FlagWindowAlwaysRun => 0x00000100,
            ConfigFlags::FlagWindowTransparent => 0x00000010,
            ConfigFlags::FlagWindowHighdpi => 0x00002000,
            ConfigFlags::FlagWindowMousePassthrough => 0x00004000,
            ConfigFlags::FlagBorderlessWindowedMode => 0x00008000,
            ConfigFlags::FlagMsaa4xHint => 0x00000020,
            ConfigFlags::FlagInterlacedHint => 0x00010000,
        }
    }

    /// Combines two flags into one configuration word.
    pub fn bitor(self, rhs: Self) -> (r: u32)
        ensures
            r == self.spec_bits() | rhs.spec_bits(),
    {
        self.bits() | rhs.bits()
    }
}

/// Keyboard keys, identified to the windowing layer by their key code.
#[derive(Clone, Copy, Debug, PartialEq, Eq, Structural)]
pub enum KeyboardKey {
    /// Key: NULL, used for no key pressed
    KeyNull,
    /// Key: '
    KeyApostrophe,
    /// Key: ,
    KeyComma,
    /// Key: -
    KeyMinus,
    /// Key: .
    KeyPeriod,
    /// Key: /
    KeySlash,
    /// Key: 0
    KeyZero,
    /// Key: 1
    KeyOne,
    /// Key: 2
    KeyTwo,
    /// Key: 3
    KeyThree,
    /// Key: 4
    KeyFour,
    /// Key: 5
    KeyFive,
    /// Key: 6
    KeySix,
    /// Key: 7
    KeySeven,
    /// Key: 8
    KeyEight,
    /// Key: 9
    KeyNine,
    /// Key: ;
    KeySemicolon,
    /// Key: =
    KeyEqual,
    /// Key: A | a
    KeyA,
    /// Key: B | b
    KeyB,
    /// Key: C | c
    KeyC,
    /// Key: D | d
    KeyD,
    /// Key: E | e
    KeyE,
    /// Key: F | f
    KeyF,
    /// Key: G | g
    KeyG,
    /// Key: H | h
    KeyH,
    /// Key: I | i
    KeyI,
    /// Key: J | j
    KeyJ,
    /// Key: K | k
    KeyK,
    /// Key: L | l
    KeyL,
    /// Key: M | m
    KeyM,
    /// Key: N | n
    KeyN,
    /// Key: O | o
    KeyO,
    /// Key: P | p
    KeyP,
    /// Key: Q | q
    KeyQ,
    /// Key: R | r
    KeyR,
    /// Key: S | s
    KeyS,
    /// Key: T | t
    KeyT,
    /// Key: U | u
    KeyU,
    /// Key: V | v
    KeyV,
    /// Key: W | w
    KeyW,
    /// Key: X | x
    KeyX,
    /// Key: Y | y
    KeyY,
    /// Key: Z | z
    KeyZ,
    /// Key: [
    KeyLeftBracket,
    /// Key: '\'
    KeyBackslash,
    /// Key: ]
    KeyRightBracket,
    /// Key: `
    KeyGrave,
    /// Key: Space
    KeySpace,
    /// Key: Esc
    KeyEscape,
    /// Key: Enter
    KeyEnter,
    /// Key: Tab
    KeyTab,
    /// Key: Backspace
    KeyBackspace,
    /// Key: Ins
    KeyInsert,
    /// Key: Del
    KeyDelete,
    /// Key: Cursor right
    KeyRight,
    /// Key: Cursor left
    KeyLeft,
    /// Key: Cursor down
    KeyDown,
    /// Key: Cursor up
    KeyUp,
    /// Key: Page up
    KeyPageUp,
    /// Key: Page down
    KeyPageDown,
    /// Key: Home
    KeyHome,
    /// Key: End
    KeyEnd,
    /// Key: Caps lock
    KeyCapsLock,
    /// Key: Scroll down
    KeyScrollLock,
    /// Key: Num lock
    KeyNumLock,
    /// Key: Print screen
    KeyPrintScreen,
    /// Key: Pause
    KeyPause,
    /// Key: F1
    KeyF1,
    /// Key: F2
    KeyF2,
    /// Key: F3
    KeyF3,
    /// Key: F4
    KeyF4,
    /// Key: F5
    KeyF5,
    /// Key: F6
    KeyF6,
    /// Key: F7
    KeyF7,
    /// Key: F8
    KeyF8,
    /// Key: F9
    KeyF9,
    /// Key: F10
    KeyF10,
    /// Key: F11
    KeyF11,
    /// Key: F12
    KeyF12,
    /// Key: Shift left
    KeyLeftShift,
    /// Key: Control left
    KeyLeftControl,
    /// Key: Alt left
    KeyLeftAlt,
    /// Key: Super left
    KeyLeftSuper,
    /// Key: Shift right
    KeyRightShift,
    /// Key: Control right
    KeyRightControl,
    /// Key: Alt right
    KeyRightAlt,
    /// Key: Super right
    KeyRightSuper,
    /// Key: KB menu
    KeyKbMenu,
    /// Key: Keypad 0
    KeyKp0,
    /// Key: Keypad 1
    KeyKp1,
    /// Key: Keypad 2
    KeyKp2,
    /// Key: Keypad 3
    KeyKp3,
    /// Key: Keypad 4
    KeyKp4,
    /// Key: Keypad 5
    KeyKp5,
    /// Key: Keypad 6
    KeyKp6,
    /// Key: Keypad 7
    KeyKp7,
    /// Key: Keypad 8
    KeyKp8,
    /// Key: Keypad 9
    KeyKp9,
    /// Key: Keypad .
    KeyKpDecimal,
    /// Key: Keypad /
    KeyKpDivide,
    /// Key: Keypad *
    KeyKpMultiply,
    /// Key: Keypad -
    KeyKpSubtract,
    /// Key: Keypad +
    KeyKpAdd,
    /// Key: Keypad Enter
    KeyKpEnter,
    /// Key: Keypad =
    KeyKpEqual,
    /// Key: Android back button
    KeyBack,
    /// Key: Android menu button
    KeyMenu,
    /// Key: Android volume up button
    KeyVolumeUp,
    /// Key: Android volume down button
    KeyVolumeDown,
}

impl KeyboardKey {
    /// The key code that the windowing layer uses for this key.
    pub open spec fn spec_code(self) -> i32 {
        match self {
            KeyboardKey::KeyNull => 0,
            KeyboardKey::KeyApostrophe => 39,
            KeyboardKey::KeyComma => 44,
            KeyboardKey::KeyMinus => 45,
            KeyboardKey::KeyPeriod => 46,
            KeyboardKey::KeySlash => 47,
            KeyboardKey::KeyZero => 48,
            KeyboardKey::KeyOne => 49,
            KeyboardKey::KeyTwo => 50,
            KeyboardKey::KeyThree => 51,
            KeyboardKey::KeyFour => 52,
            KeyboardKey::KeyFive => 53,
            KeyboardKey::KeySix => 54,
            KeyboardKey::KeySeven => 55,
            KeyboardKey::KeyEight => 56,
            KeyboardKey::KeyNine => 57,
            KeyboardKey::KeySemicolon => 59,
            KeyboardKey::KeyEqual => 61,
            KeyboardKey::KeyA => 65,
            KeyboardKey::KeyB => 66,
            KeyboardKey::KeyC => 67,
            KeyboardKey::KeyD => 68,
            KeyboardKey::KeyE => 69,
            KeyboardKey::KeyF => 70,
            KeyboardKey::KeyG => 71,
            KeyboardKey::KeyH => 72,
            KeyboardKey::KeyI => 73,
            KeyboardKey::KeyJ => 74,
            KeyboardKey::KeyK => 75,
            KeyboardKey::KeyL => 76,
            KeyboardKey::KeyM => 77,
            KeyboardKey::KeyN => 78,
            KeyboardKey::KeyO => 79,
            KeyboardKey::KeyP => 80,
            KeyboardKey::KeyQ => 81,
            KeyboardKey::KeyR => 82,
            KeyboardKey::KeyS => 83,
            KeyboardKey::KeyT => 84,
            KeyboardKey::KeyU => 85,
            KeyboardKey::KeyV => 86,
            KeyboardKey::KeyW => 87,
            KeyboardKey::KeyX => 88,
            KeyboardKey::KeyY => 89,
            KeyboardKey::KeyZ => 90,
            KeyboardKey::KeyLeftBracket => 91,
            KeyboardKey::KeyBackslash => 92,
            KeyboardKey::KeyRightBracket => 93,
            KeyboardKey::KeyGrave => 96,
            KeyboardKey::KeySpace => 32,
            KeyboardKey::KeyEscape => 256,
            KeyboardKey::KeyEnter => 257,
            KeyboardKey::KeyTab => 258,
            KeyboardKey::KeyBackspace => 259,
            KeyboardKey::KeyInsert => 260,
            KeyboardKey::KeyDelete => 261,
            KeyboardKey::KeyRight => 262,
            KeyboardKey::KeyLeft => 263,
            KeyboardKey::KeyDown => 264,
            KeyboardKey::KeyUp => 265,
            KeyboardKey::KeyPageUp => 266,
            KeyboardKey::KeyPageDown => 267,
            KeyboardKey::KeyHome => 268,
            KeyboardKey::KeyEnd => 269,
            KeyboardKey::KeyCapsLock => 280,
            KeyboardKey::KeyScrollLock => 281,
            KeyboardKey::KeyNumLock => 282,
            KeyboardKey::KeyPrintScreen => 283,
            KeyboardKey::KeyPause => 284,
            KeyboardKey::KeyF1 => 290,
            KeyboardKey::KeyF2 => 291,
            KeyboardKey::KeyF3 => 292,
            KeyboardKey::KeyF4 => 293,
            KeyboardKey::KeyF5 => 294,
            KeyboardKey::KeyF6 => 295,
            KeyboardKey::KeyF7 => 296,
            KeyboardKey::KeyF8 => 297,
            KeyboardKey::KeyF9 => 298,
            KeyboardKey::KeyF10 => 299,
            KeyboardKey::KeyF11 => 300,
            KeyboardKey::KeyF12 => 301,
            KeyboardKey::KeyLeftShift => 340,
            KeyboardKey::KeyLeftControl => 341,
            KeyboardKey::KeyLeftAlt => 342,
            KeyboardKey::KeyLeftSuper => 343,
            KeyboardKey::KeyRightShift => 344,
            KeyboardKey::KeyRightControl => 345,
            KeyboardKey::KeyRightAlt => 346,
            KeyboardKey::KeyRightSuper => 347,
            KeyboardKey::KeyKbMenu => 348,
            KeyboardKey::KeyKp0 => 320,
            KeyboardKey::KeyKp1 => 321,
            KeyboardKey::KeyKp2 => 322,
            KeyboardKey::KeyKp3 => 323,
            KeyboardKey::KeyKp4 => 324,
            KeyboardKey::KeyKp5 => 325,
            KeyboardKey::KeyKp6 => 326,
            KeyboardKey::KeyKp7 => 327,
            KeyboardKey::KeyKp8 => 328,
            KeyboardKey::KeyKp9 => 329,
            KeyboardKey::KeyKpDecimal => 330,
            KeyboardKey::KeyKpDivide => 331,
            KeyboardKey::KeyKpMultiply => 332,
            KeyboardKey::KeyKpSubtract => 333,
            KeyboardKey::KeyKpAdd => 334,
            KeyboardKey::KeyKpEnter => 335,
            KeyboardKey::KeyKpEqual => 336,
            KeyboardKey::KeyBack => 4,
            KeyboardKey::KeyMenu => 5,
            KeyboardKey::KeyVolumeUp => 24,
            KeyboardKey::KeyVolumeDown => 25,
        }
    }

    pub fn code(&self) -> (r: i32)
        ensures
            r == self.spec_code(),
    {
        match self {
            KeyboardKey::KeyNull => 0,
            KeyboardKey::KeyApostrophe => 39,
            KeyboardKey::KeyComma => 44,
            KeyboardKey::KeyMinus => 45,
            KeyboardKey::KeyPeriod => 46,
            KeyboardKey::KeySlash => 47,
            KeyboardKey::KeyZero => 48,
            KeyboardKey::KeyOne => 49,
            KeyboardKey::KeyTwo => 50,
            KeyboardKey::KeyThree => 51,
            KeyboardKey::KeyFour => 52,
            KeyboardKey::KeyFive => 53,
            KeyboardKey::KeySix => 54,
            KeyboardKey::KeySeven => 55,
            KeyboardKey::KeyEight => 56,
            KeyboardKey::KeyNine => 57,
            KeyboardKey::KeySemicolon => 59,
            KeyboardKey::KeyEqual => 61,
            KeyboardKey::KeyA => 65,
            KeyboardKey::KeyB => 66,
            KeyboardKey::KeyC => 67,
            KeyboardKey::KeyD => 68,
            KeyboardKey::KeyE => 69,
            KeyboardKey::KeyF => 70,
            KeyboardKey::KeyG => 71,
            KeyboardKey::KeyH => 72,
            KeyboardKey::KeyI => 73,
            KeyboardKey::KeyJ => 74,
            KeyboardKey::KeyK => 75,
            KeyboardKey::KeyL => 76,
            KeyboardKey::KeyM => 77,
            KeyboardKey::KeyN => 78,
            KeyboardKey::KeyO => 79,
            KeyboardKey::KeyP => 80,
            KeyboardKey::KeyQ => 81,
            KeyboardKey::KeyR => 82,
            KeyboardKey::KeyS => 83,
            KeyboardKey::KeyT => 84,
            KeyboardKey::KeyU => 85,
            KeyboardKey::KeyV => 86,
            KeyboardKey::KeyW => 87,
            KeyboardKey::KeyX => 88,
            KeyboardKey::KeyY => 89,
            KeyboardKey::KeyZ => 90,
            KeyboardKey::KeyLeftBracket => 91,
            KeyboardKey::KeyBackslash => 92,
            KeyboardKey::KeyRightBracket => 93,
            KeyboardKey::KeyGrave => 96,
            KeyboardKey::KeySpace => 32,
            KeyboardKey::KeyEscape => 256,
            KeyboardKey::KeyEnter => 257,
            KeyboardKey::KeyTab => 258,
            KeyboardKey::KeyBackspace => 259,
            KeyboardKey::KeyInsert => 260,
            KeyboardKey::KeyDelete => 261,
            KeyboardKey::KeyRight => 262,
            KeyboardKey::KeyLeft => 263,
            KeyboardKey::KeyDown => 264,
            KeyboardKey::KeyUp => 265,
            KeyboardKey::KeyPageUp => 266,
            KeyboardKey::KeyPageDown => 267,
            KeyboardKey::KeyHome => 268,
            KeyboardKey::KeyEnd => 269,
            KeyboardKey::KeyCapsLock => 280,
            KeyboardKey::KeyScrollLock => 281,
            KeyboardKey::KeyNumLock => 282,
            KeyboardKey::KeyPrintScreen => 283,
            KeyboardKey::KeyPause => 284,
            KeyboardKey::KeyF1 => 290,
            KeyboardKey::KeyF2 => 291,
            KeyboardKey::KeyF3 => 292,
            KeyboardKey::KeyF4 => 293,
            KeyboardKey::KeyF5 => 294,
            KeyboardKey::KeyF6 => 295,
            KeyboardKey::KeyF7 => 296,
            KeyboardKey::KeyF8 => 297,
            KeyboardKey::KeyF9 => 298,
            KeyboardKey::KeyF10 => 299,
            KeyboardKey::KeyF11 => 300,
            KeyboardKey::KeyF12 => 301,
            KeyboardKey::KeyLeftShift => 340,
            KeyboardKey::KeyLeftControl => 341,
            KeyboardKey::KeyLeftAlt => 342,
            KeyboardKey::KeyLeftSuper => 343,
            KeyboardKey::KeyRightShift => 344,
            KeyboardKey::KeyRightControl => 345,
            KeyboardKey::KeyRightAlt => 346,
            KeyboardKey::KeyRightSuper => 347,
            KeyboardKey::KeyKbMenu => 348,
            KeyboardKey::KeyKp0 => 320,
            KeyboardKey::KeyKp1 => 321,
            KeyboardKey::KeyKp2 => 322,
            KeyboardKey::KeyKp3 => 323,
            KeyboardKey::KeyKp4 => 324,
            KeyboardKey::KeyKp5 => 325,
            KeyboardKey::KeyKp6 => 326,
            KeyboardKey::KeyKp7 => 327,
            KeyboardKey::KeyKp8 => 328,
            KeyboardKey::KeyKp9 => 329,
            KeyboardKey::KeyKpDecimal => 330,
            KeyboardKey::KeyKpDivide => 331,
            KeyboardKey::KeyKpMultiply => 332,
            KeyboardKey::KeyKpSubtract => 333,
            KeyboardKey::KeyKpAdd => 334,
            KeyboardKey::KeyKpEnter => 335,
            KeyboardKey::KeyKpEqual => 336,
            KeyboardKey::KeyBack => 4,
            KeyboardKey::KeyMenu => 5,
            KeyboardKey::KeyVolumeUp => 24,
            KeyboardKey::KeyVolumeDown => 25,
        }
    }
}

/// Mouse buttons, identified to the windowing layer by their index.
#[derive(Clone, Copy, Debug, PartialEq, Eq, Structural)]
pub enum MouseButton {
    /// Mouse button left
    MouseButtonLeft,
    /// Mouse button right
    MouseButtonRight,
    /// Mouse button middle (pressed wheel)
    MouseButtonMiddle,
    /// Mouse button side (advanced mouse device)
    MouseButtonSide,
    /// Mouse button extra (advanced mouse device)
    MouseButtonExtra,
    /// Mouse button forward (advanced mouse device)
    MouseButtonForward,
    /// Mouse button back (advanced mouse device)
    MouseButtonBack,
}

impl MouseButton {
    /// The button index that the windowing layer uses.
    pub open spec fn spec_code(self) -> i32 {
        match self {
            MouseButton::MouseButtonLeft => 0,
            MouseButton::MouseButtonRight => 1,
            MouseButton::MouseButtonMiddle => 2,
            MouseButton::MouseButtonSide => 3,
            MouseButton::MouseButtonExtra => 4,
            MouseButton::MouseButtonForward => 5,
            MouseButton::MouseButtonBack => 6,
        }
    }

    pub fn code(&self) -> (r: i32)
        ensures
            r == self.spec_code(),
    {
        match self {
            MouseButton::MouseButtonLeft => 0,
            MouseButton::MouseButtonRight => 1,
            MouseButton::MouseButtonMiddle => 2,
            MouseButton::MouseButtonSide => 3,
            MouseButton::MouseButtonExtra => 4,
            MouseButton::MouseButtonForward => 5,
            MouseButton::MouseButtonBack => 6,
        }
    }
}

} // verus!
