//! Input events as the device reports them.

use vstd::prelude::*;

verus! {

/// An event produced by the device.
#[derive(Debug, Clone, Copy, PartialEq, Eq, Structural)]
pub enum Event {
    /// A key has been pressed.
    KeyDown(KeyCode),
    /// A key has been released.
    KeyUp(KeyCode),
    /// Quit whatsoever; the system may handle it directly, so applications
    /// may or may not receive it.
    HardQuit,
}

/// The keys of the device's keyboard.
#[derive(Debug, Clone, Copy, PartialEq, Eq, Structural)]
pub enum KeyCode {
    Left,
    Up,
    Down,
    Right,
    OK,
    Back,
    Home,
    OnOff,
    Shift,
    Alpha,
    Xnt,
    Var,
    Toolbox,
    Backspace,
    Exp,
    Ln,
    Log,
    Imaginary,
    Comma,
    Power,
    Sine,
    Cosine,
    Tangent,
    Pi,
    Sqrt,
    Square,
    Num7,
    Num8,
    Num9,
    LeftParen,
    RightParen,
    Num4,
    Num5,
    Num6,
    Multiplication,
    Division,
    Num1,
    Num2,
    Num3,
    Plus,
    Minus,
    Num0,
    Dot,
    Ee,
    Ans,
    Exe,
}

impl KeyCode {
    /// One of the four arrow keys.
    pub open spec fn is_arrow(self) -> bool {
        self is Left || self is Right || self is Up || self is Down
    }
}

} // verus!
