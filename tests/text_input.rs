use nw_gui::calculator::{Event, KeyCode};
use nw_gui::text::{Action, AlphaState, TextInput, TextInputContext};

#[test]
fn print_text_input() {
    let mut context = TextInputContext::new();
    let keys = vec![
        KeyCode::Num6,
        KeyCode::Shift,
        KeyCode::Imaginary,
        KeyCode::Alpha,
        KeyCode::Shift,
        KeyCode::Alpha,
        KeyCode::Division,
        KeyCode::Cosine,
        KeyCode::Alpha,
        KeyCode::Square,
    ];

    let mut result: Vec<TextInput> = Vec::new();
    for key in keys {
        let input = context.text_from_event(Event::KeyDown(key));
        result.push(input);
    }
    let expected = vec![
        TextInput::Text("6"),
        TextInput::Nothing,
        TextInput::Text("}"),
        TextInput::Nothing,
        TextInput::Nothing,
        TextInput::Nothing,
        TextInput::Text("V"),
        TextInput::Text("H"),
        TextInput::Nothing,
        TextInput::Text("^2"),
    ];

    assert_eq!(result, expected);
}

#[test]
fn shift_lasts_one_key() {
    let mut context = TextInputContext::new();
    assert_eq!(context.text_from_event(Event::KeyDown(KeyCode::Shift)), TextInput::Nothing);
    assert!(context.get_shift());
    assert_eq!(context.text_from_event(Event::KeyDown(KeyCode::Num1)), TextInput::Nothing);
    assert!(!context.get_shift());
    assert_eq!(context.text_from_event(Event::KeyDown(KeyCode::Num1)), TextInput::Text("1"));
}

#[test]
fn shift_twice_cancels() {
    let mut context = TextInputContext::new();
    context.text_from_event(Event::KeyDown(KeyCode::Shift));
    context.text_from_event(Event::KeyDown(KeyCode::Shift));
    assert!(!context.get_shift());
    assert_eq!(context.text_from_event(Event::KeyDown(KeyCode::Comma)), TextInput::Text(","));
}

#[test]
fn unlocked_alpha_lasts_one_key() {
    let mut context = TextInputContext::new();
    context.text_from_event(Event::KeyDown(KeyCode::Alpha));
    assert_eq!(context.get_alpha(), AlphaState::Small(false));
    assert_eq!(context.text_from_event(Event::KeyDown(KeyCode::Exp)), TextInput::Text("a"));
    assert_eq!(context.get_alpha(), AlphaState::No);
    assert_eq!(context.text_from_event(Event::KeyDown(KeyCode::Exp)), TextInput::Text("e^"));
}

#[test]
fn locked_alpha_stays_until_pressed_again() {
    let mut context = TextInputContext::new();
    context.text_from_event(Event::KeyDown(KeyCode::Alpha));
    context.text_from_event(Event::KeyDown(KeyCode::Alpha));
    assert_eq!(context.get_alpha(), AlphaState::Small(true));
    assert_eq!(context.text_from_event(Event::KeyDown(KeyCode::Ln)), TextInput::Text("b"));
    assert_eq!(context.text_from_event(Event::KeyDown(KeyCode::Log)), TextInput::Text("c"));
    context.text_from_event(Event::KeyDown(KeyCode::Alpha));
    assert_eq!(context.get_alpha(), AlphaState::No);
}

#[test]
fn shift_then_alpha_gives_capitals() {
    let mut context = TextInputContext::new();
    context.text_from_event(Event::KeyDown(KeyCode::Shift));
    context.text_from_event(Event::KeyDown(KeyCode::Alpha));
    assert!(!context.get_shift());
    assert_eq!(context.get_alpha(), AlphaState::Big(false));
    assert_eq!(context.text_from_event(Event::KeyDown(KeyCode::Pi)), TextInput::Text("J"));
}

#[test]
fn arrows_and_actions_decode() {
    let mut context = TextInputContext::new();
    assert_eq!(
        context.text_from_event(Event::KeyDown(KeyCode::Left)),
        TextInput::Action(Action::Left(false))
    );
    context.text_from_event(Event::KeyDown(KeyCode::Shift));
    assert_eq!(
        context.text_from_event(Event::KeyDown(KeyCode::Left)),
        TextInput::Action(Action::Left(true))
    );
    assert_eq!(context.text_from_event(Event::KeyDown(KeyCode::Backspace)), TextInput::Backspace);
    context.text_from_event(Event::KeyDown(KeyCode::Shift));
    assert_eq!(
        context.text_from_event(Event::KeyDown(KeyCode::Backspace)),
        TextInput::Action(Action::Clear)
    );
    assert_eq!(context.text_from_event(Event::KeyDown(KeyCode::OK)), TextInput::Action(Action::OK));
}

#[test]
fn key_up_and_on_off_decode_to_nothing() {
    let mut context = TextInputContext::new();
    assert_eq!(context.text_from_event(Event::KeyUp(KeyCode::Num5)), TextInput::Nothing);
    assert_eq!(context.text_from_event(Event::KeyDown(KeyCode::OnOff)), TextInput::Nothing);
    assert_eq!(context.text_from_event(Event::HardQuit), TextInput::Nothing);
}
