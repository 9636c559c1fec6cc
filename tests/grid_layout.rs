use nw_gui::buttons::Button;
use nw_gui::calculator::{Event, KeyCode};
use nw_gui::geometry::Region;
use nw_gui::grid::{next_cell, Grid};
use nw_gui::rectangles::ColorRect;
use nw_gui::storage::WidgetVec;
use nw_gui::theme::{Draw, Theme};
use nw_gui::widget::{FocusFrom, Widget};

fn noop(_: &mut ()) {}

type Key = Button<(), fn(&mut ())>;

fn button(label: &str) -> Key {
    Button::new(String::from(label), Region::default(), noop as fn(&mut ()))
}

fn screen() -> Region {
    Region::new(0, 0, 320, 240)
}

#[test]
fn arrows_move_selection_between_two_cells() {
    let mut grid: Grid<2, 1, WidgetVec<Key, 2>> = Grid::new(screen(), WidgetVec::new());
    assert_eq!(grid.add_child_at(button("A"), (0, 0), (1, 1), 0).ok(), Some(0));
    assert_eq!(grid.add_child_at(button("B"), (1, 0), (1, 1), 0).ok(), Some(1));
    assert_eq!(grid.get_selected(), Some((0, 0)));

    assert_eq!(grid.on_event(Event::KeyDown(KeyCode::Right), &mut ()), None);
    assert_eq!(grid.get_selected(), Some((1, 0)));
    assert_eq!(grid.on_event(Event::KeyDown(KeyCode::Left), &mut ()), None);
    assert_eq!(grid.get_selected(), Some((0, 0)));
}

#[test]
fn moving_past_the_edge_returns_the_key() {
    let mut grid: Grid<2, 1, WidgetVec<Key, 2>> = Grid::new(screen(), WidgetVec::new());
    grid.add_child_at(button("A"), (0, 0), (1, 1), 0).ok().unwrap();
    grid.add_child_at(button("B"), (1, 0), (1, 1), 0).ok().unwrap();
    grid.on_event(Event::KeyDown(KeyCode::Right), &mut ());
    assert_eq!(
        grid.on_event(Event::KeyDown(KeyCode::Right), &mut ()),
        Some(Event::KeyDown(KeyCode::Right))
    );
    assert_eq!(grid.get_selected(), Some((1, 0)));
    assert_eq!(
        grid.on_event(Event::KeyDown(KeyCode::Up), &mut ()),
        Some(Event::KeyDown(KeyCode::Up))
    );
    assert_eq!(grid.get_selected(), Some((1, 0)));
}

#[test]
fn movement_skips_unassigned_cells_and_own_span() {
    let mut grid: Grid<5, 1, WidgetVec<Key, 3>> = Grid::new(screen(), WidgetVec::new());
    grid.add_child_at(button("A"), (0, 0), (2, 1), 0).ok().unwrap();
    grid.add_child_at(button("B"), (4, 0), (1, 1), 0).ok().unwrap();
    assert_eq!(grid.on_event(Event::KeyDown(KeyCode::Right), &mut ()), None);
    assert_eq!(grid.get_selected(), Some((4, 0)));
    assert_eq!(grid.on_event(Event::KeyDown(KeyCode::Left), &mut ()), None);
    assert_eq!(grid.get_selected(), Some((1, 0)));
}

#[test]
fn digit_key_on_empty_grid_is_returned() {
    let mut grid: Grid<3, 3, WidgetVec<Key, 3>> = Grid::new(screen(), WidgetVec::new());
    assert_eq!(grid.get_selected(), None);
    assert_eq!(
        grid.on_event(Event::KeyDown(KeyCode::Num1), &mut ()),
        Some(Event::KeyDown(KeyCode::Num1))
    );
    assert_eq!(
        grid.on_event(Event::KeyDown(KeyCode::Right), &mut ()),
        Some(Event::KeyDown(KeyCode::Right))
    );
}

#[test]
fn add_child_marks_exactly_its_span() {
    let mut grid: Grid<5, 3, WidgetVec<ColorRect<()>, 3>> = Grid::new(screen(), WidgetVec::new());
    assert_eq!(grid.add_child_at(ColorRect::new(Region::default()), (3, 0), (2, 1), 4).ok(), Some(0));
    assert_eq!(grid.add_child_at(ColorRect::new(Region::default()), (0, 1), (3, 1), 4).ok(), Some(1));
    assert_eq!(grid.add_child_at(ColorRect::new(Region::default()), (1, 2), (3, 1), 4).ok(), Some(2));
    for cy in 0..3usize {
        for cx in 0..5usize {
            let expected = if cy == 0 && cx >= 3 {
                Some(0)
            } else if cy == 1 && cx < 3 {
                Some(1)
            } else if cy == 2 && cx >= 1 && cx < 4 {
                Some(2)
            } else {
                None
            };
            assert_eq!(grid.child_at(cx, cy), expected, "cell ({}, {})", cx, cy);
        }
    }
    assert_eq!(grid.child_at(5, 0), None);
    assert_eq!(grid.get_selected(), Some((3, 0)));
}

#[test]
fn child_regions_follow_cells_and_padding() {
    let mut grid: Grid<5, 3, WidgetVec<ColorRect<()>, 3>> = Grid::new(screen(), WidgetVec::new());
    grid.add_child_at(ColorRect::new(Region::default()), (3, 0), (2, 1), 4).ok().unwrap();
    grid.add_child_at(ColorRect::new(Region::default()), (0, 1), (3, 1), 0).ok().unwrap();
    assert_eq!(grid.get_child(0).unwrap().get_bounding_box(), Region::new(196, 4, 120, 72));
    assert_eq!(grid.get_child(1).unwrap().get_bounding_box(), Region::new(0, 80, 192, 80));
}

#[test]
fn invalid_placements_give_the_child_back() {
    let mut grid: Grid<3, 2, WidgetVec<ColorRect<()>, 2>> = Grid::new(screen(), WidgetVec::new());
    let r = Region::new(1, 2, 3, 4);
    let back = grid.add_child_at(ColorRect::new(r), (2, 0), (2, 1), 0).err().unwrap();
    assert_eq!(back.get_bounding_box(), r);
    assert!(grid.add_child_at(ColorRect::new(r), (0, 2), (1, 1), 0).is_err());
    assert!(grid.add_child_at(ColorRect::new(r), (0, 0), (0, 1), 0).is_err());
    assert_eq!(grid.child_count(), 0);
    assert_eq!(grid.get_selected(), None);

    grid.add_child_at(ColorRect::new(r), (0, 0), (2, 1), 0).ok().unwrap();
    assert!(grid.add_child_at(ColorRect::new(r), (1, 0), (1, 2), 0).is_err());
    grid.add_child_at(ColorRect::new(r), (2, 0), (1, 1), 0).ok().unwrap();
    let full = grid.add_child_at(ColorRect::new(r), (0, 1), (1, 1), 0);
    assert!(full.is_err());
    assert_eq!(grid.child_count(), 2);
    assert_eq!(grid.child_at(0, 1), None);
}

#[test]
fn selected_child_renders_last() {
    let mut grid: Grid<2, 1, WidgetVec<Key, 2>> = Grid::new(screen(), WidgetVec::new());
    grid.add_child_at(button("A"), (0, 0), (1, 1), 0).ok().unwrap();
    grid.add_child_at(button("B"), (1, 0), (1, 1), 0).ok().unwrap();
    let theme = Theme::default();
    let mut out: Vec<Draw> = Vec::new();
    grid.render(&theme, &mut out);
    let labels: Vec<String> = out
        .iter()
        .filter_map(|d| match d {
            Draw::Text { text, .. } => Some(text.clone()),
            _ => None,
        })
        .collect();
    assert_eq!(labels, vec!["B".to_string(), "A".to_string()]);
}

#[test]
fn focus_follows_selection_in_a_focused_grid() {
    let mut grid: Grid<2, 1, WidgetVec<Key, 2>> = Grid::new(screen(), WidgetVec::new());
    grid.add_child_at(button("A"), (0, 0), (1, 1), 0).ok().unwrap();
    grid.add_child_at(button("B"), (1, 0), (1, 1), 0).ok().unwrap();
    assert_eq!(grid.set_focus(Some(FocusFrom::Left)), Ok(()));
    assert_eq!(grid.get_focus(), Some(true));
    assert_eq!(grid.get_child(0).unwrap().get_focus(), Some(true));
    grid.on_event(Event::KeyDown(KeyCode::Right), &mut ());
    assert_eq!(grid.get_child(0).unwrap().get_focus(), Some(false));
    assert_eq!(grid.get_child(1).unwrap().get_focus(), Some(true));
    assert_eq!(grid.set_focus(None), Ok(()));
    assert_eq!(grid.get_child(1).unwrap().get_focus(), Some(false));
}

#[test]
fn set_region_lays_children_out_again() {
    let mut grid: Grid<2, 2, WidgetVec<ColorRect<()>, 2>> = Grid::new(screen(), WidgetVec::new());
    grid.add_child_at(ColorRect::new(Region::default()), (1, 1), (1, 1), 2).ok().unwrap();
    let r = Region::new(10, 20, 100, 50);
    grid.set_bounding_box(r);
    assert_eq!(grid.get_bounding_box(), r);
    assert_eq!(grid.get_child(0).unwrap().get_bounding_box(), Region::new(62, 47, 46, 21));
}

#[test]
fn empty_grid_refuses_focus() {
    let mut grid: Grid<2, 2, WidgetVec<Key, 2>> = Grid::new(screen(), WidgetVec::new());
    assert_eq!(grid.set_focus(Some(FocusFrom::Up)), Err(()));
    assert_eq!(grid.get_focus(), Some(false));
    assert_eq!(grid.set_focus(None), Err(()));
}

#[test]
fn scan_finds_first_other_child() {
    let cells = vec![Some(0), None, Some(0), Some(1), None, Some(2)];
    assert_eq!(next_cell(&cells, 3, 2, (0, 0), KeyCode::Right), None);
    assert_eq!(next_cell(&cells, 3, 2, (0, 1), KeyCode::Right), Some((2, 1)));
    assert_eq!(next_cell(&cells, 3, 2, (0, 0), KeyCode::Down), Some((0, 1)));
    assert_eq!(next_cell(&cells, 3, 2, (2, 1), KeyCode::Up), Some((2, 0)));
    assert_eq!(next_cell(&cells, 3, 2, (2, 1), KeyCode::Left), Some((0, 1)));
}
