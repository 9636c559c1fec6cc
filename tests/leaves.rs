use nw_gui::buttons::Button;
use nw_gui::calculator::{Event, KeyCode};
use nw_gui::geometry::Region;
use nw_gui::one_of::OneOf;
use nw_gui::rectangles::ColorRect;
use nw_gui::storage::{WidgetCollection, WidgetVec};
use nw_gui::text::TextInputContext;
use nw_gui::text_box::{TextBox, TextInputHost};
use nw_gui::theme::{Color, Draw, Theme};
use nw_gui::widget::{FocusFrom, Widget};

fn count(c: &mut u32) {
    *c += 1;
}

struct Shared {
    input: TextInputContext,
}

impl TextInputHost for Shared {
    fn text_input(&self) -> TextInputContext {
        self.input
    }

    fn get_context(&mut self) -> &mut TextInputContext {
        &mut self.input
    }
}

fn shared() -> Shared {
    Shared { input: TextInputContext::new() }
}

#[test]
fn default_theme_colors() {
    let t = Theme::default();
    assert_eq!(t.rect_border, 2);
    assert_eq!(t.foreground, Color::rgb(245, 245, 245));
    assert_eq!(t.focused, Color::rgb(255, 222, 173));
    assert_eq!(t.active, Color::rgb(135, 206, 235));
    assert_eq!(t.background, Color::rgb(169, 169, 169));
}

#[test]
fn region_center_and_shrink() {
    assert_eq!(Region::new(10, 20, 5, 7).center_point(), (12, 23));
    assert_eq!(Region::new(20, 30, 4, 8).center_point(), (21, 33));
    assert_eq!(Region::new(3, 4, 0, 0).center_point(), (3, 4));
    assert_eq!(Region::new(0, 0, 6, 4).shrink(10, 10), Region::new(3, 2, 0, 0));
    assert_eq!(Region::new(0, 0, 6, 4).shrink(1, 0), Region::new(1, 0, 4, 4));
    assert!(Region::new(0, 0, 6, 4).is_valid());
    assert!(!Region::new(i32::MAX, 0, 1, 4).is_valid());
}

#[test]
fn color_rect_never_focuses_nor_uses_events() {
    let mut r: ColorRect<()> = ColorRect::new(Region::new(1, 2, 3, 4));
    assert_eq!(r.get_focus(), None);
    assert_eq!(r.set_focus(Some(FocusFrom::Left)), Err(()));
    assert_eq!(r.set_focus(None), Err(()));
    assert_eq!(r.on_event(Event::KeyDown(KeyCode::OK), &mut ()), Some(Event::KeyDown(KeyCode::OK)));
    let theme = Theme::default();
    let mut out = Vec::new();
    r.render(&theme, &mut out);
    assert_eq!(
        out,
        vec![Draw::Rect {
            region: Region::new(1, 2, 3, 4),
            fill: theme.background,
            stroke: theme.foreground,
            stroke_width: 2
        }]
    );
}

#[test]
fn button_press_runs_callback() {
    let mut b: Button<u32, fn(&mut u32)> =
        Button::new(String::from("Go"), Region::new(0, 0, 10, 10), count as fn(&mut u32));
    let mut presses: u32 = 0;
    assert_eq!(b.on_event(Event::KeyDown(KeyCode::Exe), &mut presses), None);
    assert_eq!(presses, 1);
    let theme = Theme::default();
    let mut out = Vec::new();
    b.render(&theme, &mut out);
    assert_eq!(
        out[1],
        Draw::Text { text: String::from("Go"), x: 4, y: 4, color: theme.active, underline: None }
    );
    assert_eq!(b.on_event(Event::KeyUp(KeyCode::Exe), &mut presses), None);
    assert_eq!(presses, 1);
    assert_eq!(b.on_event(Event::KeyDown(KeyCode::Num1), &mut presses), Some(Event::KeyDown(KeyCode::Num1)));
    assert_eq!(b.on_event(Event::KeyDown(KeyCode::OK), &mut presses), None);
    assert_eq!(presses, 2);
    assert_eq!(b.set_focus(None), Ok(()));
    let mut out = Vec::new();
    b.render(&theme, &mut out);
    match &out[1] {
        Draw::Text { color, .. } => assert_eq!(*color, theme.foreground),
        _ => panic!("label expected"),
    }
}

#[test]
fn button_focus_and_text() {
    let mut b: Button<u32, fn(&mut u32)> =
        Button::new(String::from("Go"), Region::default(), count as fn(&mut u32));
    assert_eq!(b.get_focus(), Some(false));
    assert_eq!(b.set_focus(Some(FocusFrom::Down)), Ok(()));
    assert_eq!(b.get_focus(), Some(true));
    b.set_text(String::from("Stop"));
    let theme = Theme::default();
    let mut out = Vec::new();
    b.render(&theme, &mut out);
    match &out[1] {
        Draw::Text { text, color, .. } => {
            assert_eq!(text, "Stop");
            assert_eq!(*color, theme.focused);
        }
        _ => panic!("label expected"),
    }
}

#[test]
fn text_box_edits_from_keys() {
    let mut ctx = shared();
    let mut tb: TextBox<Shared, 4> = TextBox::new(Region::new(0, 0, 40, 10), true);
    assert_eq!(tb.set_focus(Some(FocusFrom::Left)), Ok(()));
    assert_eq!(tb.get_focus(), Some(true));
    assert_eq!(tb.on_event(Event::KeyDown(KeyCode::Num1), &mut ctx), None);
    assert_eq!(tb.on_event(Event::KeyDown(KeyCode::Num2), &mut ctx), None);
    assert_eq!(tb.value, "12");
    assert_eq!(tb.on_event(Event::KeyDown(KeyCode::Cosine), &mut ctx), None);
    assert_eq!(tb.value, "12");
    assert_eq!(tb.on_event(Event::KeyDown(KeyCode::Backspace), &mut ctx), None);
    assert_eq!(tb.value, "1");
    assert_eq!(
        tb.on_event(Event::KeyDown(KeyCode::Left), &mut ctx),
        Some(Event::KeyDown(KeyCode::Left))
    );
    assert_eq!(tb.on_event(Event::KeyDown(KeyCode::OK), &mut ctx), None);
    assert_eq!(tb.on_event(Event::KeyDown(KeyCode::Num3), &mut ctx), None);
    assert_eq!(tb.value, "3");
    ctx.input.text_from_event(Event::KeyDown(KeyCode::Shift));
    assert_eq!(tb.on_event(Event::KeyDown(KeyCode::Backspace), &mut ctx), None);
    assert_eq!(tb.value, "");
}

#[test]
fn text_box_draws_editing_state() {
    let mut ctx = shared();
    let mut tb: TextBox<Shared, 8> = TextBox::new(Region::new(0, 0, 40, 10), true);
    tb.set_focus(Some(FocusFrom::Left)).unwrap();
    tb.on_event(Event::KeyDown(KeyCode::Num5), &mut ctx);
    let theme = Theme::default();
    let mut out = Vec::new();
    tb.render(&theme, &mut out);
    assert_eq!(
        out,
        vec![
            Draw::Rect {
                region: Region::new(0, 0, 40, 10),
                fill: theme.background,
                stroke: theme.active,
                stroke_width: 2
            },
            Draw::Text {
                text: String::from("5"),
                x: 19,
                y: 4,
                color: theme.foreground,
                underline: Some(theme.active)
            },
        ]
    );
}

#[test]
fn read_only_text_box_ignores_keys() {
    let mut ctx = shared();
    let mut tb: TextBox<Shared, 8> = TextBox::new(Region::new(0, 0, 40, 10), false);
    assert_eq!(tb.get_focus(), None);
    assert_eq!(tb.set_focus(Some(FocusFrom::Left)), Err(()));
    assert_eq!(tb.on_event(Event::KeyDown(KeyCode::Num5), &mut ctx), Some(Event::KeyDown(KeyCode::Num5)));
    assert_eq!(tb.value, "");
    let theme = Theme::default();
    let mut out = Vec::new();
    tb.render(&theme, &mut out);
    match &out[0] {
        Draw::Rect { stroke_width, .. } => assert_eq!(*stroke_width, 0),
        _ => panic!("background expected"),
    }
}

#[test]
fn widget_vec_is_bounded() {
    let mut v: WidgetVec<ColorRect<()>, 1> = WidgetVec::new();
    assert!(v.add_widget(ColorRect::new(Region::default())).is_ok());
    assert!(v.add_widget(ColorRect::new(Region::new(1, 1, 1, 1))).is_err());
    assert_eq!(v.len(), 1);
    assert!(v.get(0).is_some());
    assert!(v.get(1).is_none());
    assert!(v.get_mut(1).is_none());
}

#[test]
fn one_of_behaves_as_its_widget() {
    let mut w: OneOf<ColorRect<u32>, Button<u32, fn(&mut u32)>> =
        OneOf::Right(Button::new(String::from("x"), Region::default(), count as fn(&mut u32)));
    let mut c: u32 = 0;
    assert_eq!(w.on_event(Event::KeyDown(KeyCode::OK), &mut c), None);
    assert_eq!(c, 1);
    assert_eq!(w.get_focus(), Some(false));
    let mut r: OneOf<ColorRect<u32>, Button<u32, fn(&mut u32)>> =
        OneOf::Left(ColorRect::new(Region::default()));
    assert_eq!(r.set_focus(Some(FocusFrom::Up)), Err(()));
}

#[test]
fn text_box_capacity_counts_bytes() {
    let mut ctx = shared();
    let mut tb: TextBox<Shared, 4> = TextBox::new(Region::new(0, 0, 40, 10), true);
    tb.set_focus(Some(FocusFrom::Left)).unwrap();
    assert_eq!(tb.on_event(Event::KeyDown(KeyCode::Num1), &mut ctx), None);
    tb.value = String::from("\u{e9}\u{e9}");
    assert_eq!(tb.on_event(Event::KeyDown(KeyCode::Num2), &mut ctx), None);
    assert_eq!(tb.value, "\u{e9}\u{e9}");
}
