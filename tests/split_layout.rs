use nw_gui::buttons::Button;
use nw_gui::calculator::{Event, KeyCode};
use nw_gui::geometry::{Region, SplitDirection};
use nw_gui::layout::{entry_side, focus_move, Side, SplitLayout};
use nw_gui::rectangles::ColorRect;
use nw_gui::theme::{Draw, Theme};
use nw_gui::widget::{FocusFrom, Widget};

fn noop(_: &mut ()) {}

type Key = Button<(), fn(&mut ())>;

fn button(label: &str) -> Key {
    Button::new(String::from(label), Region::default(), noop as fn(&mut ()))
}

fn screen() -> Region {
    Region::new(0, 0, 320, 240)
}

#[test]
fn entering_falls_back_to_the_focusable_side() {
    let mut split: SplitLayout<ColorRect<()>, Key> =
        SplitLayout::new(screen(), SplitDirection::Horizontal, 500);
    split.attach_first(ColorRect::new(Region::default()), (0, 0));
    split.attach_second(button("B"), (0, 0));
    assert_eq!(split.set_focus(Some(FocusFrom::Left)), Ok(()));
    assert_eq!(split.get_focused(), Some(Side::Second));
    assert_eq!(split.get_focus(), Some(true));
    assert_eq!(split.get_second().unwrap().get_focus(), Some(true));
}

#[test]
fn entering_from_the_right_takes_the_second_side() {
    let mut split: SplitLayout<Key, Key> = SplitLayout::new(screen(), SplitDirection::Horizontal, 500);
    split.attach_first(button("A"), (0, 0));
    split.attach_second(button("B"), (0, 0));
    assert_eq!(split.set_focus(Some(FocusFrom::Right)), Ok(()));
    assert_eq!(split.get_focused(), Some(Side::Second));
    assert_eq!(split.get_first().unwrap().get_focus(), Some(false));
}

#[test]
fn reentering_keeps_the_focused_side() {
    let mut split: SplitLayout<Key, Key> = SplitLayout::new(screen(), SplitDirection::Horizontal, 500);
    split.attach_first(button("A"), (0, 0));
    split.attach_second(button("B"), (0, 0));
    split.set_focus(Some(FocusFrom::Left)).unwrap();
    assert_eq!(split.get_focused(), Some(Side::First));
    assert_eq!(split.set_focus(Some(FocusFrom::Right)), Ok(()));
    assert_eq!(split.get_focused(), Some(Side::First));
}

#[test]
fn no_focusable_side_refuses_focus() {
    let mut split: SplitLayout<ColorRect<()>, ColorRect<()>> =
        SplitLayout::new(screen(), SplitDirection::Vertical, 300);
    split.attach_first(ColorRect::new(Region::default()), (0, 0));
    assert_eq!(split.set_focus(Some(FocusFrom::Up)), Err(()));
    assert_eq!(split.get_focused(), None);
    assert_eq!(split.set_focus(None), Err(()));
}

#[test]
fn arrows_cross_the_split_and_come_back() {
    let mut split: SplitLayout<Key, Key> = SplitLayout::new(screen(), SplitDirection::Horizontal, 500);
    split.attach_first(button("A"), (0, 0));
    split.attach_second(button("B"), (0, 0));
    split.set_focus(Some(FocusFrom::Left)).unwrap();
    assert_eq!(split.on_event(Event::KeyDown(KeyCode::Right), &mut ()), None);
    assert_eq!(split.get_focused(), Some(Side::Second));
    assert_eq!(split.get_first().unwrap().get_focus(), Some(false));
    assert_eq!(
        split.on_event(Event::KeyDown(KeyCode::Right), &mut ()),
        Some(Event::KeyDown(KeyCode::Right))
    );
    assert_eq!(
        split.on_event(Event::KeyDown(KeyCode::Up), &mut ()),
        Some(Event::KeyDown(KeyCode::Up))
    );
    assert_eq!(split.on_event(Event::KeyDown(KeyCode::Left), &mut ()), None);
    assert_eq!(split.get_focused(), Some(Side::First));
}

#[test]
fn crossing_to_an_unfocusable_side_returns_the_key() {
    let mut split: SplitLayout<Key, ColorRect<()>> =
        SplitLayout::new(screen(), SplitDirection::Vertical, 500);
    split.attach_first(button("A"), (0, 0));
    split.attach_second(ColorRect::new(Region::default()), (0, 0));
    split.set_focus(Some(FocusFrom::Up)).unwrap();
    assert_eq!(
        split.on_event(Event::KeyDown(KeyCode::Down), &mut ()),
        Some(Event::KeyDown(KeyCode::Down))
    );
    assert_eq!(split.get_focused(), Some(Side::First));
}

#[test]
fn digit_key_without_focus_is_returned() {
    let mut split: SplitLayout<Key, Key> = SplitLayout::new(screen(), SplitDirection::Horizontal, 500);
    split.attach_first(button("A"), (0, 0));
    assert_eq!(
        split.on_event(Event::KeyDown(KeyCode::Num7), &mut ()),
        Some(Event::KeyDown(KeyCode::Num7))
    );
    assert_eq!(split.get_focused(), None);
}

#[test]
fn sides_are_split_at_the_ratio_with_margins() {
    let mut split: SplitLayout<ColorRect<()>, ColorRect<()>> =
        SplitLayout::new(screen(), SplitDirection::Horizontal, 500);
    split.attach_first(ColorRect::new(Region::default()), (2, 2));
    split.attach_second(ColorRect::new(Region::default()), (0, 0));
    assert_eq!(split.get_first().unwrap().get_bounding_box(), Region::new(2, 2, 156, 236));
    assert_eq!(split.get_second().unwrap().get_bounding_box(), Region::new(160, 0, 160, 240));
}

#[test]
fn vertical_split_and_ratio_clamp() {
    let mut split: SplitLayout<ColorRect<()>, ColorRect<()>> =
        SplitLayout::new(screen(), SplitDirection::Vertical, 5000);
    split.attach_first(ColorRect::new(Region::default()), (0, 0));
    split.attach_second(ColorRect::new(Region::default()), (3, 3));
    assert_eq!(split.get_first().unwrap().get_bounding_box(), Region::new(0, 0, 320, 240));
    assert_eq!(split.get_second().unwrap().get_bounding_box(), Region::new(3, 240, 314, 0));
}

#[test]
fn huge_margins_are_clamped() {
    let mut split: SplitLayout<ColorRect<()>, ColorRect<()>> =
        SplitLayout::new(screen(), SplitDirection::Vertical, 100);
    split.attach_first(ColorRect::new(Region::default()), (1000, 1000));
    assert_eq!(split.get_first().unwrap().get_bounding_box(), Region::new(160, 12, 0, 0));
}

#[test]
fn set_region_moves_both_sides() {
    let mut split: SplitLayout<ColorRect<()>, ColorRect<()>> =
        SplitLayout::new(screen(), SplitDirection::Horizontal, 250);
    split.attach_first(ColorRect::new(Region::default()), (1, 1));
    split.attach_second(ColorRect::new(Region::default()), (0, 0));
    let r = Region::new(-10, 5, 100, 40);
    split.set_bounding_box(r);
    assert_eq!(split.get_bounding_box(), r);
    assert_eq!(split.get_first().unwrap().get_bounding_box(), Region::new(-9, 6, 23, 38));
    assert_eq!(split.get_second().unwrap().get_bounding_box(), Region::new(15, 5, 75, 40));
}

#[test]
fn render_is_repeatable_and_focused_side_last() {
    let mut split: SplitLayout<Key, Key> = SplitLayout::new(screen(), SplitDirection::Horizontal, 500);
    split.attach_first(button("A"), (0, 0));
    split.attach_second(button("B"), (0, 0));
    split.set_focus(Some(FocusFrom::Left)).unwrap();
    let theme = Theme::default();
    let mut first: Vec<Draw> = Vec::new();
    split.render(&theme, &mut first);
    let mut second: Vec<Draw> = Vec::new();
    split.render(&theme, &mut second);
    assert_eq!(first, second);
    assert_eq!(first.len(), 4);
    match &first[3] {
        Draw::Text { text, color, .. } => {
            assert_eq!(text, "A");
            assert_eq!(*color, theme.focused);
        }
        _ => panic!("the focused label is drawn last"),
    }
}

#[test]
fn focus_rules() {
    assert_eq!(
        focus_move(KeyCode::Left, SplitDirection::Horizontal, None),
        Some((Side::First, FocusFrom::Right))
    );
    assert_eq!(focus_move(KeyCode::Left, SplitDirection::Horizontal, Some(Side::First)), None);
    assert_eq!(
        focus_move(KeyCode::Down, SplitDirection::Vertical, Some(Side::First)),
        Some((Side::Second, FocusFrom::Up))
    );
    assert_eq!(focus_move(KeyCode::Down, SplitDirection::Horizontal, None), None);
    assert_eq!(entry_side(SplitDirection::Horizontal, FocusFrom::Right), Side::Second);
    assert_eq!(entry_side(SplitDirection::Horizontal, FocusFrom::Down), Side::First);
    assert_eq!(entry_side(SplitDirection::Vertical, FocusFrom::Down), Side::Second);
}
