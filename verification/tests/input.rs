use orrery::input::{get_click, Event, PointerButton};
use orrery::selection::Selection;
use orrery::vector::Vec2;

fn button(x: i64, y: i64, button: PointerButton, pressed: bool) -> Event {
    Event::PointerButton { pos: Vec2 { x, y }, button, pressed }
}

#[test]
fn get_click_finds_the_first_primary_press() {
    let events = vec![
        Event::Other,
        button(1, 1, PointerButton::Secondary, true),
        button(2, 2, PointerButton::Primary, false),
        button(3, 3, PointerButton::Primary, true),
        button(4, 4, PointerButton::Primary, true),
    ];
    assert_eq!(get_click(&events), Some(Vec2 { x: 3, y: 3 }));
}

#[test]
fn get_click_ignores_other_buttons_and_releases() {
    let events = vec![
        button(1, 1, PointerButton::Secondary, true),
        button(2, 2, PointerButton::Middle, true),
        button(3, 3, PointerButton::Extra1, true),
        button(4, 4, PointerButton::Extra2, true),
        button(5, 5, PointerButton::Primary, false),
        Event::Other,
    ];
    assert_eq!(get_click(&events), None);
}

#[test]
fn get_click_of_a_frame_without_events() {
    assert_eq!(get_click(&Vec::new()), None);
    assert_eq!(get_click(&vec![Event::Other]), None);
    assert_eq!(
        get_click(&vec![button(-7, 9, PointerButton::Primary, true)]),
        Some(Vec2 { x: -7, y: 9 })
    );
}

#[test]
fn a_press_selects_what_it_hits() {
    let click = Some(Vec2 { x: 5, y: 5 });
    assert_eq!(Selection::Unselected.after_frame(click, Some(2)), Selection::Selected(2));
    assert_eq!(Selection::Selected(1).after_frame(click, Some(2)), Selection::Selected(2));
    assert_eq!(Selection::Selected(2).after_frame(click, Some(2)), Selection::Selected(2));
}

#[test]
fn a_press_that_hits_nothing_clears_the_selection() {
    let click = Some(Vec2 { x: 5, y: 5 });
    assert_eq!(Selection::Selected(1).after_frame(click, None), Selection::Unselected);
    assert_eq!(Selection::Unselected.after_frame(click, None), Selection::Unselected);
}

#[test]
fn a_frame_without_a_press_keeps_the_selection() {
    assert_eq!(Selection::Selected(1).after_frame(None, None), Selection::Selected(1));
    assert_eq!(Selection::Selected(1).after_frame(None, Some(3)), Selection::Selected(1));
    assert_eq!(Selection::Unselected.after_frame(None, Some(3)), Selection::Unselected);
}

#[test]
fn a_selection_resolves_only_to_a_body_that_is_there() {
    assert_eq!(Selection::Selected(1).resolve(2), Some(1));
    assert_eq!(Selection::Selected(0).resolve(1), Some(0));
    assert_eq!(Selection::Selected(2).resolve(2), None);
    assert_eq!(Selection::Selected(0).resolve(0), None);
    assert_eq!(Selection::Selected(usize::MAX).resolve(usize::MAX), None);
    assert_eq!(Selection::Unselected.resolve(9), None);
}
