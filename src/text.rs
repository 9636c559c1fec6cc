//! Turning key presses into text, following the Shift and Alpha modes.

use crate::calculator::{Event, KeyCode};
use vstd::prelude::*;

verus! {

/// State of the Alpha key.
#[derive(Debug, Clone, Copy, PartialEq, Eq, Structural)]
pub enum AlphaState {
    /// Alpha isn't active.
    No,
    /// Alpha is in small letters mode. The inner bool is whether the mode is
    /// locked.
    Small(bool),
    /// Alpha is in capital letters mode. The inner bool is whether the mode is
    /// locked.
    Big(bool),
}

/// What a key press means for text input.
///
/// See [`TextInputContext::text_from_event`].
#[derive(Debug, Clone, Copy, PartialEq, Eq)]
pub enum TextInput {
    /// An [`Action`].
    Action(Action),
    /// Backspace.
    Backspace,
    /// Raw text.
    Text(&'static str),
    /// The event either changed the [`TextInputContext`] or did nothing.
    Nothing,
}

/// Actions resulting from a key press.
#[derive(Debug, Clone, Copy, PartialEq, Eq, Structural)]
pub enum Action {
    Ans,
    Back,
    Clear,
    Copy,
    Cut,
    /// The inner bool is whether Shift was active.
    Down(bool),
    Exe,
    Home,
    /// The inner bool is whether Shift was active.
    Left(bool),
    OK,
    Paste,
    /// The inner bool is whether Shift was active.
    Right(bool),
    Toolbox,
    /// The inner bool is whether Shift was active.
    Up(bool),
    Var,
    Xnt,
}

/// The four meanings of a key: plain, with Shift, with small Alpha, and with
/// capital Alpha.
pub struct KeyRow {
    pub normal: TextInput,
    pub shift: TextInput,
    pub alpha: TextInput,
    pub big_alpha: TextInput,
}

/// The meanings of each key other than Shift, Alpha and On/Off.
pub open spec fn key_row(key: KeyCode) -> Option<KeyRow> {
    match key {
        KeyCode::Ans => Some(KeyRow { normal: TextInput::Action(Action::Ans), shift: TextInput::Nothing, alpha: TextInput::Text("@"), big_alpha: TextInput::Text("@") }),
        KeyCode::Back => Some(KeyRow { normal: TextInput::Action(Action::Back), shift: TextInput::Nothing, alpha: TextInput::Action(Action::Back), big_alpha: TextInput::Action(Action::Back) }),
        KeyCode::Backspace => Some(KeyRow { normal: TextInput::Backspace, shift: TextInput::Action(Action::Clear), alpha: TextInput::Text("%"), big_alpha: TextInput::Text("%") }),
        KeyCode::Comma => Some(KeyRow { normal: TextInput::Text(","), shift: TextInput::Text("_"), alpha: TextInput::Text("e"), big_alpha: TextInput::Text("E") }),
        KeyCode::Cosine => Some(KeyRow { normal: TextInput::Text("cos("), shift: TextInput::Text("acos("), alpha: TextInput::Text("h"), big_alpha: TextInput::Text("H") }),
        KeyCode::Division => Some(KeyRow { normal: TextInput::Text("/"), shift: TextInput::Nothing, alpha: TextInput::Text("v"), big_alpha: TextInput::Text("V") }),
        KeyCode::Dot => Some(KeyRow { normal: TextInput::Text("."), shift: TextInput::Nothing, alpha: TextInput::Text("!"), big_alpha: TextInput::Text("!") }),
        KeyCode::Down => Some(KeyRow { normal: TextInput::Action(Action::Down(false)), shift: TextInput::Action(Action::Down(true)), alpha: TextInput::Nothing, big_alpha: TextInput::Nothing }),
        KeyCode::Up => Some(KeyRow { normal: TextInput::Action(Action::Up(false)), shift: TextInput::Action(Action::Up(true)), alpha: TextInput::Nothing, big_alpha: TextInput::Nothing }),
        KeyCode::Left => Some(KeyRow { normal: TextInput::Action(Action::Left(false)), shift: TextInput::Action(Action::Left(true)), alpha: TextInput::Nothing, big_alpha: TextInput::Nothing }),
        KeyCode::Right => Some(KeyRow { normal: TextInput::Action(Action::Right(false)), shift: TextInput::Action(Action::Right(true)), alpha: TextInput::Nothing, big_alpha: TextInput::Nothing }),
        KeyCode::Ee => Some(KeyRow { normal: TextInput::Text("*10^"), shift: TextInput::Nothing, alpha: TextInput::Text("\\"), big_alpha: TextInput::Text("\\") }),
        KeyCode::Exe => Some(KeyRow { normal: TextInput::Action(Action::Exe), shift: TextInput::Nothing, alpha: TextInput::Action(Action::Exe), big_alpha: TextInput::Action(Action::Exe) }),
        KeyCode::OK => Some(KeyRow { normal: TextInput::Action(Action::OK), shift: TextInput::Nothing, alpha: TextInput::Action(Action::OK), big_alpha: TextInput::Action(Action::OK) }),
        KeyCode::Home => Some(KeyRow { normal: TextInput::Action(Action::Home), shift: TextInput::Action(Action::Home), alpha: TextInput::Action(Action::Home), big_alpha: TextInput::Action(Action::Home) }),
        KeyCode::Exp => Some(KeyRow { normal: TextInput::Text("e^"), shift: TextInput::Text("["), alpha: TextInput::Text("a"), big_alpha: TextInput::Text("A") }),
        KeyCode::Imaginary => Some(KeyRow { normal: TextInput::Text("i"), shift: TextInput::Text("}"), alpha: TextInput::Text("d"), big_alpha: TextInput::Text("D") }),
        KeyCode::LeftParen => Some(KeyRow { normal: TextInput::Text("("), shift: TextInput::Text("()"), alpha: TextInput::Text("p"), big_alpha: TextInput::Text("P") }),
        KeyCode::RightParen => Some(KeyRow { normal: TextInput::Text(")"), shift: TextInput::Text(")"), alpha: TextInput::Text("q"), big_alpha: TextInput::Text("Q") }),
        KeyCode::Ln => Some(KeyRow { normal: TextInput::Text("ln("), shift: TextInput::Text("]"), alpha: TextInput::Text("b"), big_alpha: TextInput::Text("B") }),
        KeyCode::Log => Some(KeyRow { normal: TextInput::Text("log("), shift: TextInput::Text("{"), alpha: TextInput::Text("c"), big_alpha: TextInput::Text("C") }),
        KeyCode::Minus => Some(KeyRow { normal: TextInput::Text("-"), shift: TextInput::Nothing, alpha: TextInput::Text(" "), big_alpha: TextInput::Text(" ") }),
        KeyCode::Multiplication => Some(KeyRow { normal: TextInput::Text("*"), shift: TextInput::Nothing, alpha: TextInput::Text("u"), big_alpha: TextInput::Text("U") }),
        KeyCode::Num0 => Some(KeyRow { normal: TextInput::Text("0"), shift: TextInput::Nothing, alpha: TextInput::Text("?"), big_alpha: TextInput::Text("?") }),
        KeyCode::Num1 => Some(KeyRow { normal: TextInput::Text("1"), shift: TextInput::Nothing, alpha: TextInput::Text("w"), big_alpha: TextInput::Text("W") }),
        KeyCode::Num2 => Some(KeyRow { normal: TextInput::Text("2"), shift: TextInput::Nothing, alpha: TextInput::Text("x"), big_alpha: TextInput::Text("X") }),
        KeyCode::Num3 => Some(KeyRow { normal: TextInput::Text("3"), shift: TextInput::Nothing, alpha: TextInput::Text("y"), big_alpha: TextInput::Text("Y") }),
        KeyCode::Num4 => Some(KeyRow { normal: TextInput::Text("4"), shift: TextInput::Nothing, alpha: TextInput::Text("r"), big_alpha: TextInput::Text("R") }),
        KeyCode::Num5 => Some(KeyRow { normal: TextInput::Text("5"), shift: TextInput::Nothing, alpha: TextInput::Text("s"), big_alpha: TextInput::Text("S") }),
        KeyCode::Num6 => Some(KeyRow { normal: TextInput::Text("6"), shift: TextInput::Nothing, alpha: TextInput::Text("t"), big_alpha: TextInput::Text("T") }),
        KeyCode::Num7 => Some(KeyRow { normal: TextInput::Text("7"), shift: TextInput::Nothing, alpha: TextInput::Text("m"), big_alpha: TextInput::Text("M") }),
        KeyCode::Num8 => Some(KeyRow { normal: TextInput::Text("8"), shift: TextInput::Nothing, alpha: TextInput::Text("n"), big_alpha: TextInput::Text("N") }),
        KeyCode::Num9 => Some(KeyRow { normal: TextInput::Text("9"), shift: TextInput::Nothing, alpha: TextInput::Text("o"), big_alpha: TextInput::Text("O") }),
        KeyCode::Pi => Some(KeyRow { normal: TextInput::Text("pi"), shift: TextInput::Text("="), alpha: TextInput::Text("j"), big_alpha: TextInput::Text("J") }),
        KeyCode::Plus => Some(KeyRow { normal: TextInput::Text("+"), shift: TextInput::Nothing, alpha: TextInput::Text("z"), big_alpha: TextInput::Text("Z") }),
        KeyCode::Power => Some(KeyRow { normal: TextInput::Text("^"), shift: TextInput::Text("->"), alpha: TextInput::Text("f"), big_alpha: TextInput::Text("F") }),
        KeyCode::Sine => Some(KeyRow { normal: TextInput::Text("sin("), shift: TextInput::Text("asin("), alpha: TextInput::Text("g"), big_alpha: TextInput::Text("G") }),
        KeyCode::Tangent => Some(KeyRow { normal: TextInput::Text("tan("), shift: TextInput::Text("atan("), alpha: TextInput::Text("i"), big_alpha: TextInput::Text("I") }),
        KeyCode::Sqrt => Some(KeyRow { normal: TextInput::Text("sqrt("), shift: TextInput::Text("<"), alpha: TextInput::Text("k"), big_alpha: TextInput::Text("K") }),
        KeyCode::Square => Some(KeyRow { normal: TextInput::Text("^2"), shift: TextInput::Text(">"), alpha: TextInput::Text("l"), big_alpha: TextInput::Text("L") }),
        KeyCode::Toolbox => Some(KeyRow { normal: TextInput::Action(Action::Toolbox), shift: TextInput::Action(Action::Paste), alpha: TextInput::Text("\""), big_alpha: TextInput::Text("'") }),
        KeyCode::Var => Some(KeyRow { normal: TextInput::Action(Action::Var), shift: TextInput::Action(Action::Copy), alpha: TextInput::Text(";"), big_alpha: TextInput::Text(";") }),
        KeyCode::Xnt => Some(KeyRow { normal: TextInput::Action(Action::Xnt), shift: TextInput::Action(Action::Cut), alpha: TextInput::Text(":"), big_alpha: TextInput::Text(":") }),
        _ => None,
    }
}

/// The state of the Shift and Alpha keys, used to decode key presses.
#[derive(Debug, Clone, Copy, PartialEq, Eq)]
pub struct TextInputContext {
    /// Whether Shift is active.
    shift: bool,
    /// State of Alpha: see [`AlphaState`].
    alpha: AlphaState,
}

impl TextInputContext {
    /// Shift is only ever active while Alpha is not.
    #[verifier::type_invariant]
    spec fn inv(self) -> bool {
        self.shift ==> self.alpha == AlphaState::No
    }

    pub closed spec fn shift_active(self) -> bool {
        self.shift
    }

    pub closed spec fn alpha_state(self) -> AlphaState {
        self.alpha
    }

    /// The meaning that the next ordinary key press takes from `row`.
    pub open spec fn pick(self, row: KeyRow) -> TextInput {
        match self.alpha_state() {
            AlphaState::No => if self.shift_active() {
                row.shift
            } else {
                row.normal
            },
            AlphaState::Small(_) => row.alpha,
            AlphaState::Big(_) => row.big_alpha,
        }
    }

    /// The modes after an ordinary key press: Shift and an unlocked Alpha
    /// last for one key, a locked Alpha stays.
    pub open spec fn after_key(self) -> (bool, AlphaState) {
        match self.alpha_state() {
            AlphaState::No => (false, AlphaState::No),
            AlphaState::Small(lock) => (false, if lock {
                self.alpha_state()
            } else {
                AlphaState::No
            }),
            AlphaState::Big(lock) => (false, if lock {
                self.alpha_state()
            } else {
                AlphaState::No
            }),
        }
    }

    /// The modes after Alpha is pressed: with Shift it enters capitals, else
    /// small letters; pressed again it locks the mode; pressed on a locked
    /// mode it leaves Alpha.
    pub open spec fn after_alpha(self) -> (bool, AlphaState) {
        match self.alpha_state() {
            AlphaState::No => if self.shift_active() {
                (false, AlphaState::Big(false))
            } else {
                (false, AlphaState::Small(false))
            },
            AlphaState::Small(lock) => (false, if lock {
                AlphaState::No
            } else {
                AlphaState::Small(true)
            }),
            AlphaState::Big(lock) => (false, if lock {
                AlphaState::No
            } else {
                AlphaState::Big(true)
            }),
        }
    }

    /// The modes after Shift is pressed: outside Alpha it toggles Shift;
    /// inside Alpha it swaps small letters and capitals, keeping the lock.
    pub open spec fn after_shift(self) -> (bool, AlphaState) {
        match self.alpha_state() {
            AlphaState::No => (!self.shift_active(), AlphaState::No),
            AlphaState::Small(lock) => (false, AlphaState::Big(lock)),
            AlphaState::Big(lock) => (false, AlphaState::Small(lock)),
        }
    }

    /// The modes, and the meaning, of event `e`.
    pub open spec fn decode(self, e: Event) -> ((bool, AlphaState), TextInput) {
        match e {
            Event::KeyDown(KeyCode::Alpha) => (self.after_alpha(), TextInput::Nothing),
            Event::KeyDown(KeyCode::Shift) => (self.after_shift(), TextInput::Nothing),
            Event::KeyDown(key) => match key_row(key) {
                Some(row) => (self.after_key(), self.pick(row)),
                None => ((self.shift_active(), self.alpha_state()), TextInput::Nothing),
            },
            _ => ((self.shift_active(), self.alpha_state()), TextInput::Nothing),
        }
    }

    /// Creates a context with Shift and Alpha inactive.
    pub fn new() -> (r: Self)
        ensures
            !r.shift_active(),
            r.alpha_state() == AlphaState::No,
    {
        TextInputContext { alpha: AlphaState::No, shift: false }
    }

    /// Whether Shift is active.
    pub fn get_shift(&self) -> (r: bool)
        ensures
            r == self.shift_active(),
    {
        self.shift
    }

    /// The state of Alpha.
    pub fn get_alpha(&self) -> (r: AlphaState)
        ensures
            r == self.alpha_state(),
    {
        self.alpha
    }

    /// Decodes event `e`, which may change the modes, e.g. when it presses
    /// Shift or Alpha.
    pub fn text_from_event(&mut self, e: Event) -> (r: TextInput)
        ensures
            (final(self).shift_active(), final(self).alpha_state()) == old(self).decode(e).0,
            r == old(self).decode(e).1,
    {
        proof {
            use_type_invariant(&*self);
        }
        if let Event::KeyDown(key) = e {
            match key {
                KeyCode::Alpha => {
                    match self.alpha {
                        AlphaState::No => {
                            if self.shift {
                                self.shift = false;
                                self.alpha = AlphaState::Big(false);
                            } else {
                                self.alpha = AlphaState::Small(false);
                            }
                        },
                        AlphaState::Small(lock) => {
                            if lock {
                                self.alpha = AlphaState::No;
                            } else {
                                self.alpha = AlphaState::Small(true);
                            }
                        },
                        AlphaState::Big(lock) => {
                            if lock {
                                self.alpha = AlphaState::No;
                            } else {
                                self.alpha = AlphaState::Big(true);
                            }
                        },
                    }
                    TextInput::Nothing
                },
                KeyCode::Shift => {
                    match self.alpha {
                        AlphaState::No => {
                            self.shift = !self.shift;
                        },
                        AlphaState::Big(lock) => {
                            self.shift = false;
                            self.alpha = AlphaState::Small(lock);
                        },
                        AlphaState::Small(lock) => {
                            self.shift = false;
                            self.alpha = AlphaState::Big(lock);
                        },
                    }
                    TextInput::Nothing
                },
                KeyCode::OnOff => TextInput::Nothing,
                KeyCode::Ans => self.full_key(
                    TextInput::Action(Action::Ans),
                    TextInput::Nothing,
                    TextInput::Text("@"),
                    TextInput::Text("@"),
                ),
                KeyCode::Back => self.full_key(
                    TextInput::Action(Action::Back),
                    TextInput::Nothing,
                    TextInput::Action(Action::Back),
                    TextInput::Action(Action::Back),
                ),
                KeyCode::Backspace => self.full_key(
                    TextInput::Backspace,
                    TextInput::Action(Action::Clear),
                    TextInput::Text("%"),
                    TextInput::Text("%"),
                ),
                KeyCode::Comma => self.basic_key(",", "_", "e", "E"),
                KeyCode::Cosine => self.basic_key("cos(", "acos(", "h", "H"),
                KeyCode::Division => self.shift_action_key("/", TextInput::Nothing, "v", "V"),
                KeyCode::Dot => self.shift_action_key(".", TextInput::Nothing, "!", "!"),
                KeyCode::Down => self.full_key(
                    TextInput::Action(Action::Down(false)),
                    TextInput::Action(Action::Down(true)),
                    TextInput::Nothing,
                    TextInput::Nothing,
                ),
                KeyCode::Up => self.full_key(
                    TextInput::Action(Action::Up(false)),
                    TextInput::Action(Action::Up(true)),
                    TextInput::Nothing,
                    TextInput::Nothing,
                ),
                KeyCode::Left => self.full_key(
                    TextInput::Action(Action::Left(false)),
                    TextInput::Action(Action::Left(true)),
                    TextInput::Nothing,
                    TextInput::Nothing,
                ),
                KeyCode::Right => self.full_key(
                    TextInput::Action(Action::Right(false)),
                    TextInput::Action(Action::Right(true)),
                    TextInput::Nothing,
                    TextInput::Nothing,
                ),
                KeyCode::Ee => self.shift_action_key("*10^", TextInput::Nothing, "\\", "\\"),
                KeyCode::Exe => self.full_key(
                    TextInput::Action(Action::Exe),
                    TextInput::Nothing,
                    TextInput::Action(Action::Exe),
                    TextInput::Action(Action::Exe),
                ),
                KeyCode::OK => self.full_key(
                    TextInput::Action(Action::OK),
                    TextInput::Nothing,
                    TextInput::Action(Action::OK),
                    TextInput::Action(Action::OK),
                ),
                KeyCode::Home => self.full_key(
                    TextInput::Action(Action::Home),
                    TextInput::Action(Action::Home),
                    TextInput::Action(Action::Home),
                    TextInput::Action(Action::Home),
                ),
                KeyCode::Exp => self.basic_key("e^", "[", "a", "A"),
                KeyCode::Imaginary => self.basic_key("i", "}", "d", "D"),
                KeyCode::LeftParen => self.basic_key("(", "()", "p", "P"),
                KeyCode::RightParen => self.basic_key(")", ")", "q", "Q"),
                KeyCode::Ln => self.basic_key("ln(", "]", "b", "B"),
                KeyCode::Log => self.basic_key("log(", "{", "c", "C"),
                KeyCode::Minus => self.shift_action_key("-", TextInput::Nothing, " ", " "),
                KeyCode::Multiplication => self.shift_action_key("*", TextInput::Nothing, "u", "U"),
                KeyCode::Num0 => self.shift_action_key("0", TextInput::Nothing, "?", "?"),
                KeyCode::Num1 => self.shift_action_key("1", TextInput::Nothing, "w", "W"),
                KeyCode::Num2 => self.shift_action_key("2", TextInput::Nothing, "x", "X"),
                KeyCode::Num3 => self.shift_action_key("3", TextInput::Nothing, "y", "Y"),
                KeyCode::Num4 => self.shift_action_key("4", TextInput::Nothing, "r", "R"),
                KeyCode::Num5 => self.shift_action_key("5", TextInput::Nothing, "s", "S"),
                KeyCode::Num6 => self.shift_action_key("6", TextInput::Nothing, "t", "T"),
                KeyCode::Num7 => self.shift_action_key("7", TextInput::Nothing, "m", "M"),
                KeyCode::Num8 => self.shift_action_key("8", TextInput::Nothing, "n", "N"),
                KeyCode::Num9 => self.shift_action_key("9", TextInput::Nothing, "o", "O"),
                KeyCode::Pi => self.basic_key("pi", "=", "j", "J"),
                KeyCode::Plus => self.shift_action_key("+", TextInput::Nothing, "z", "Z"),
                KeyCode::Power => self.basic_key("^", "->", "f", "F"),
                KeyCode::Sine => self.basic_key("sin(", "asin(", "g", "G"),
                KeyCode::Tangent => self.basic_key("tan(", "atan(", "i", "I"),
                KeyCode::Sqrt => self.basic_key("sqrt(", "<", "k", "K"),
                KeyCode::Square => self.basic_key("^2", ">", "l", "L"),
                KeyCode::Toolbox => self.full_key(
                    TextInput::Action(Action::Toolbox),
                    TextInput::Action(Action::Paste),
                    TextInput::Text("\""),
                    TextInput::Text("'"),
                ),
                KeyCode::Var => self.full_key(
                    TextInput::Action(Action::Var),
                    TextInput::Action(Action::Copy),
                    TextInput::Text(";"),
                    TextInput::Text(";"),
                ),
                KeyCode::Xnt => self.full_key(
                    TextInput::Action(Action::Xnt),
                    TextInput::Action(Action::Cut),
                    TextInput::Text(":"),
                    TextInput::Text(":"),
                ),
            }
        } else {
            TextInput::Nothing
        }
    }

    fn basic_key(
        &mut self,
        normal: &'static str,
        shift: &'static str,
        alpha: &'static str,
        big_alpha: &'static str,
    ) -> (r: TextInput)
        ensures
            (final(self).shift_active(), final(self).alpha_state()) == old(self).after_key(),
            r == old(self).pick(
                KeyRow {
                    normal: TextInput::Text(normal),
                    shift: TextInput::Text(shift),
                    alpha: TextInput::Text(alpha),
                    big_alpha: TextInput::Text(big_alpha),
                },
            ),
    {
        self.full_key(
            TextInput::Text(normal),
            TextInput::Text(shift),
            TextInput::Text(alpha),
            TextInput::Text(big_alpha),
        )
    }

    fn shift_action_key(
        &mut self,
        normal: &'static str,
        shift: TextInput,
        alpha: &'static str,
        big_alpha: &'static str,
    ) -> (r: TextInput)
        ensures
            (final(self).shift_active(), final(self).alpha_state()) == old(self).after_key(),
            r == old(self).pick(
                KeyRow {
                    normal: TextInput::Text(normal),
                    shift,
                    alpha: TextInput::Text(alpha),
                    big_alpha: TextInput::Text(big_alpha),
                },
            ),
    {
        self.full_key(
            TextInput::Text(normal),
            shift,
            TextInput::Text(alpha),
            TextInput::Text(big_alpha),
        )
    }

    fn full_key(
        &mut self,
        normal: TextInput,
        shift: TextInput,
        alpha: TextInput,
        big_alpha: TextInput,
    ) -> (r: TextInput)
        ensures
            (final(self).shift_active(), final(self).alpha_state()) == old(self).after_key(),
            r == old(self).pick(KeyRow { normal, shift, alpha, big_alpha }),
    {
        proof {
            use_type_invariant(&*self);
        }
        match self.alpha {
            AlphaState::No => {
                if self.shift {
                    self.shift = false;
                    shift
                } else {
                    normal
                }
            },
            AlphaState::Big(lock) => {
                if !lock {
                    self.alpha = AlphaState::No;
                }
                big_alpha
            },
            AlphaState::Small(lock) => {
                if !lock {
                    self.alpha = AlphaState::No;
                }
                alpha
            },
        }
    }
}

} // verus!
