use nw_gui::calculator::{Event, KeyCode};
use nw_gui::geometry::Region;
use nw_gui::imgui::{Action, Imgui, VerticalAlignment};
use nw_gui::theme::{Color, Draw};

const DARK_GRAY: Color = Color { r: 169, g: 169, b: 169 };
const BLUE_VIOLET: Color = Color { r: 138, g: 43, b: 226 };
const LIGHT_GRAY: Color = Color { r: 211, g: 211, b: 211 };
const SLATE: Color = Color { r: 47, g: 79, b: 79 };

fn screen() -> Imgui {
    Imgui::new(Region::new(0, 0, 320, 240))
}

#[test]
fn top_button_is_centred_and_drawn_focused() {
    let mut ui = screen();
    ui.new_frame(false);
    assert_eq!(ui.button("button 1", VerticalAlignment::Top), 0);
    let mut out = Vec::new();
    ui.render(&mut out);
    assert_eq!(
        out,
        vec![
            Draw::Clear { color: DARK_GRAY },
            Draw::Rect {
                region: Region::new(128, 2, 60, 17),
                fill: DARK_GRAY,
                stroke: BLUE_VIOLET,
                stroke_width: 1
            },
            Draw::Label { text: String::from("button 1"), x: 130, y: 4, color: SLATE },
        ]
    );
}

#[test]
fn bottom_button_and_narrow_space() {
    let mut ui = screen();
    ui.button("x", VerticalAlignment::Bottom);
    ui.button("y", VerticalAlignment::Top);
    let mut out = Vec::new();
    ui.render(&mut out);
    match &out[1] {
        Draw::Rect { region, .. } => assert_eq!(*region, Region::new(152, 221, 11, 17)),
        _ => panic!("frame expected"),
    }
    match &out[3] {
        Draw::Rect { region, stroke, .. } => {
            assert_eq!(*region, Region::new(152, 2, 11, 17));
            assert_eq!(*stroke, LIGHT_GRAY);
        }
        _ => panic!("frame expected"),
    }

    let mut narrow = Imgui::new(Region::new(0, 0, 10, 100));
    narrow.button("abc", VerticalAlignment::Top);
    let mut out = Vec::new();
    narrow.render(&mut out);
    match &out[1] {
        Draw::Rect { region, .. } => assert_eq!(*region, Region::new(-9, 2, 25, 17)),
        _ => panic!("frame expected"),
    }
}

#[test]
fn slider_clamps_and_lays_out() {
    let mut ui = screen();
    ui.button("button 1", VerticalAlignment::Top);
    let mut v: i32 = 500;
    assert_eq!(ui.slider(&mut v, 128, -127, VerticalAlignment::Top), 1);
    assert_eq!(v, 128);
    let mut out = Vec::new();
    ui.render(&mut out);
    assert_eq!(
        out[3],
        Draw::Rect { region: Region::new(2, 23, 316, 19), fill: DARK_GRAY, stroke: LIGHT_GRAY, stroke_width: 1 }
    );
    let sky = Color { r: 135, g: 206, b: 235 };
    assert_eq!(
        out[4],
        Draw::Rect { region: Region::new(7, 30, 306, 5), fill: sky, stroke: sky, stroke_width: 0 }
    );
    let red = Color { r: 205, g: 92, b: 92 };
    assert_eq!(
        out[5],
        Draw::Rect { region: Region::new(308, 30, 5, 5), fill: red, stroke: red, stroke_width: 0 }
    );
}

#[test]
fn events_move_focus_and_step_sliders() {
    let mut ui = screen();
    let mut v: i32 = 0;
    let b = ui.button("button 1", VerticalAlignment::Top);
    let s = ui.slider(&mut v, -127, 128, VerticalAlignment::Top);
    ui.focus_up_down(b, s);

    assert_eq!(ui.on_event(Event::KeyDown(KeyCode::Down)), Ok(()));
    assert_eq!(ui.on_event(Event::KeyDown(KeyCode::Up)), Err(Event::KeyDown(KeyCode::Up)));
    ui.new_frame(false);
    let b = ui.button("button 1", VerticalAlignment::Top);
    let s = ui.slider(&mut v, -127, 128, VerticalAlignment::Top);
    ui.focus_up_down(b, s);
    assert_eq!(v, 0);
    ui.end_frame();

    assert_eq!(ui.on_event(Event::KeyDown(KeyCode::Right)), Ok(()));
    ui.new_frame(false);
    let b = ui.button("button 1", VerticalAlignment::Top);
    let s = ui.slider(&mut v, -127, 128, VerticalAlignment::Top);
    ui.focus_up_down(b, s);
    assert_eq!(v, 1);
    ui.end_frame();

    assert_eq!(ui.on_event(Event::KeyDown(KeyCode::Up)), Ok(()));
    ui.new_frame(false);
    let b = ui.button("button 1", VerticalAlignment::Top);
    let s = ui.slider(&mut v, -127, 128, VerticalAlignment::Top);
    ui.focus_up_down(b, s);
    assert_eq!(v, 1);
    ui.end_frame();

    assert_eq!(ui.on_event(Event::KeyDown(KeyCode::Right)), Ok(()));
    ui.new_frame(false);
    ui.button("button 1", VerticalAlignment::Top);
    ui.slider(&mut v, -127, 128, VerticalAlignment::Top);
    assert_eq!(v, 1);
    ui.end_frame();
    ui.new_frame(true);
}

#[test]
fn action_queue_is_bounded() {
    let mut ui = screen();
    for _ in 0..7 {
        assert_eq!(ui.add_action(Action::OK), Ok(()));
    }
    assert_eq!(ui.add_action(Action::Back), Err(Action::Back));
}

#[test]
fn multi_line_button_spans_its_lines() {
    let mut ui = screen();
    ui.button("a\nbc", VerticalAlignment::Top);
    let mut out = Vec::new();
    ui.render(&mut out);
    match &out[1] {
        Draw::Rect { region, .. } => assert_eq!(*region, Region::new(149, 2, 18, 30)),
        _ => panic!("frame expected"),
    }
}

#[test]
fn single_value_slider_is_accepted() {
    let mut ui = screen();
    let mut v: i32 = -8;
    assert_eq!(ui.slider(&mut v, 3, 3, VerticalAlignment::Top), 0);
    assert_eq!(v, 3);
    assert_eq!(ui.on_event(Event::KeyDown(KeyCode::Right)), Ok(()));
    ui.new_frame(false);
    ui.slider(&mut v, 3, 3, VerticalAlignment::Top);
    assert_eq!(v, 3);
}

#[test]
fn trailing_carriage_return_is_not_measured() {
    let mut ui = screen();
    ui.button("a\r", VerticalAlignment::Top);
    let mut out = Vec::new();
    ui.render(&mut out);
    match &out[1] {
        Draw::Rect { region, .. } => assert_eq!(*region, Region::new(152, 2, 11, 17)),
        _ => panic!("frame expected"),
    }
}
