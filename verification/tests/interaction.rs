//! Tests of the interaction state machine: hit-testing, clicks,
//! scrolling, refresh timing, and the end-to-end flow from raw status
//! text to offered actions.

use svn_dash::app::{
    available_actions, handle_scroll, is_time_for_update, App, AppSection, AppState, Direction,
    ListState, MouseButton, Position, Rect, ScrollbarState,
};
use svn_dash::command::Action;
use svn_dash::svn::state::State;

fn rect(loc: u16) -> Rect {
    Rect {
        x: loc,
        y: loc,
        width: 1,
        height: 1,
    }
}

#[test]
fn test_handle_click() {
    let mut a = App::new();
    a.changes_area = Some(Rect {
        x: 0,
        y: 0,
        width: 1,
        height: 5,
    });
    let file_list = vec![
        (State::Modified, String::from("path1")),
        (State::Modified, String::from("path2")),
        (State::Modified, String::from("path3")),
    ];
    *a.file_list.list_mut() = file_list.clone();
    a.list_state = ListState {
        offset: 0,
        selected: None,
    };

    a.mouse_loc = (3, 0);
    let action = a.handle_click(MouseButton::Left);

    assert_eq!(None, action);
    assert_eq!(a.state, AppState::Main);
    assert_eq!(a.change_popup_area, None);
    assert_eq!(a.list_state.selected, Some(2));
    assert_eq!(a.get_selected_changes(), Some(vec![&file_list[2]]))
}

#[test]
fn right_click_opens_popup_on_row() {
    let mut a = App::new();
    a.changes_area = Some(Rect {
        x: 0,
        y: 0,
        width: 10,
        height: 5,
    });
    *a.file_list.list_mut() = vec![
        (State::Modified, String::from("path1")),
        (State::Deleted, String::from("path2")),
    ];
    a.mouse_loc = (2, 1);
    let action = a.handle_click(MouseButton::Right);
    assert_eq!(None, action);
    assert_eq!(AppState::ChangePopup, a.state);
    assert_eq!(Some(1), a.list_state.selected);
    assert_eq!(None, a.change_popup_area);
}

#[test]
fn click_outside_everything_clears_selection() {
    let mut a = App::new();
    a.changes_area = Some(rect(0));
    a.list_state.selected = Some(1);
    a.state = AppState::ChangePopup;
    a.mouse_loc = (7, 7);
    let action = a.handle_click(MouseButton::Left);
    assert_eq!(None, action);
    assert_eq!(AppState::Main, a.state);
    assert_eq!(None, a.list_state.selected);
}

#[test]
fn popup_click_resolves_last_matching_button() {
    let mut a = App::new();
    a.change_popup_area = Some(Rect {
        x: 0,
        y: 0,
        width: 10,
        height: 10,
    });
    a.buttons = vec![
        (
            Rect {
                x: 0,
                y: 0,
                width: 10,
                height: 10,
            },
            Action::Open,
        ),
        (
            Rect {
                x: 0,
                y: 0,
                width: 10,
                height: 10,
            },
            Action::Revert,
        ),
    ];
    a.state = AppState::ChangePopup;
    a.mouse_loc = (5, 5);
    let action = a.handle_click(MouseButton::Left);
    assert_eq!(Some(Action::Revert), action);
    assert_eq!(AppState::Main, a.state);
    assert_eq!(None, a.change_popup_area);
}

#[test]
fn test_current_mouse_section() {
    let cases: [(Option<Rect>, Option<Rect>, (u16, u16), Option<AppSection>); 4] = [
        (Some(rect(0)), None, (0, 0), Some(AppSection::Changes)),
        (None, Some(rect(2)), (2, 2), Some(AppSection::ChangePopup)),
        (Some(rect(0)), Some(rect(0)), (0, 0), Some(AppSection::ChangePopup)),
        (Some(rect(0)), Some(rect(2)), (3, 3), None),
    ];
    for (changes, change_popup, loc, expected) in cases {
        let mut a = App::new();
        a.changes_area = changes;
        a.change_popup_area = change_popup;
        a.mouse_loc = loc;
        assert_eq!(expected, a.current_mouse_section());
    }
}

#[test]
fn popup_region_takes_precedence_over_changes() {
    let mut a = App::new();
    a.changes_area = Some(Rect {
        x: 0,
        y: 0,
        width: 20,
        height: 20,
    });
    a.change_popup_area = Some(Rect {
        x: 2,
        y: 2,
        width: 5,
        height: 5,
    });
    a.mouse_loc = (4, 4);
    assert_eq!(Some(AppSection::ChangePopup), a.current_mouse_section());
}

#[test]
fn test_handle_scroll() {
    let cases = [
        (1usize, 2usize, Direction::Up, 1usize),
        (1, 1, Direction::Up, 0),
        (1, 0, Direction::Up, 0),
        (1, 2, Direction::Down, 3),
        (1, 1, Direction::Down, 2),
        (1, 0, Direction::Down, 1),
        (2, 2, Direction::Down, 3),
        (2, 1, Direction::Down, 2),
        (2, 0, Direction::Down, 1),
    ];
    for (start_pos, offset, dir, exp_offset) in cases {
        let mut scroll_state = ScrollbarState::new(3).position(start_pos);
        let mut offset = offset;
        handle_scroll(&dir, &mut offset, &mut scroll_state);
        assert_eq!(exp_offset, offset, "offset = {offset:?}");
        assert_eq!(
            ScrollbarState::new(3).position(offset),
            scroll_state,
            "state = {scroll_state:?}"
        );
    }
}

#[test]
fn scroll_mirrors_scrollbar_at_content_length_three() {
    // content length 3, position 1, offset 2, direction up
    let mut bar = ScrollbarState::new(3).position(1);
    let mut offset = 2usize;
    handle_scroll(&Direction::Up, &mut offset, &mut bar);
    assert_eq!(1, offset);
    assert_eq!(1, bar.position);
    assert_eq!(3, bar.content_length);
}

#[test]
fn test_handle_mouse_scroll_changes_section() {
    // the wheel scrolls the list offset, the scrollbar mirrors the new
    // offset, and the selection is untouched
    // (direction, content length, offset, selected, position,
    //  expected offset, expected selected, expected position)
    let cases = [
        (Direction::Down, 3usize, 0usize, Some(0usize), 0usize, 1usize, Some(0usize), 1usize),
        (Direction::Down, 3, 1, None, 1, 2, None, 2),
        (Direction::Up, 3, 2, Some(1), 2, 1, Some(1), 1),
        (Direction::Up, 3, 0, Some(1), 0, 0, Some(1), 0),
    ];
    for (dir, cont_length, offset, selected, position, exp_offset, exp_selected, exp_position)
        in cases
    {
        let mut a = App::new();
        a.mouse_loc = (0, 0);
        a.changes_area = Some(rect(0));
        a.list_state = ListState { offset, selected };
        a.changes_scrollbar_state = ScrollbarState::new(cont_length).position(position);
        a.handle_mouse_scroll(dir);
        assert_eq!(
            ListState { offset: exp_offset, selected: exp_selected },
            a.list_state
        );
        assert_eq!(
            ScrollbarState::new(cont_length).position(exp_position),
            a.changes_scrollbar_state
        );
    }
}

#[test]
fn mouse_scroll_in_conflicts_pane_moves_its_offset() {
    let mut a = App::new();
    a.conflicts_area = Some(Rect {
        x: 0,
        y: 10,
        width: 10,
        height: 5,
    });
    a.conflicts_scroll_offset = 1;
    a.conflicts_scrollbar_state = ScrollbarState::new(8).position(1);
    a.mouse_loc = (12, 3);
    a.handle_mouse_scroll(Direction::Down);
    assert_eq!(2, a.conflicts_scroll_offset);
    assert_eq!(2, a.conflicts_scrollbar_state.position);
    assert_eq!(Some(AppSection::Conflicts), a.selected_section);
}

#[test]
fn test_time_for_update() {
    assert_eq!(false, is_time_for_update(3, 5));
    assert_eq!(false, is_time_for_update(4, 5));
    assert_eq!(false, is_time_for_update(5, 5));
    assert_eq!(true, is_time_for_update(6, 5));
}

#[test]
fn end_to_end_status_to_actions() {
    let mut a = App::new();
    let raw = "M       a.txt\nD       b.txt\n";
    let parsed = svn_dash::svn::parse_svn_status(raw).expect("parse failed");
    a.apply_status_result(Ok(parsed));
    let r = a.file_list.renderable();
    assert_eq!(2, r.len());
    assert_eq!(&(State::Modified, String::from("a.txt")), r[0]);
    assert_eq!(&(State::Deleted, String::from("b.txt")), r[1]);
    assert!(!a.file_list.has_conflicts());

    // b.txt is Deleted: Revert and Commit are offered, Delete and Add are not
    let for_deleted = available_actions(State::Deleted);
    assert!(for_deleted.contains(&Action::Open));
    assert!(for_deleted.contains(&Action::Revert));
    assert!(for_deleted.contains(&Action::Commit));
    assert!(!for_deleted.contains(&Action::Delete));
    assert!(!for_deleted.contains(&Action::Add));

    // an Unversioned entry gets Add but neither Commit, Delete nor Revert
    let raw2 = "M       a.txt\nD       b.txt\n?       c.txt\n";
    let parsed2 = svn_dash::svn::parse_svn_status(raw2).expect("parse failed");
    a.apply_status_result(Ok(parsed2));
    assert_eq!(3, a.file_list.renderable().len());
    let for_unversioned = available_actions(State::Unversioned);
    assert!(for_unversioned.contains(&Action::Open));
    assert!(for_unversioned.contains(&Action::Add));
    assert!(!for_unversioned.contains(&Action::Commit));
    assert!(!for_unversioned.contains(&Action::Delete));
    assert!(!for_unversioned.contains(&Action::Revert));
}

#[test]
fn popup_rect_is_clamped_into_area() {
    let mut a = App::new();
    a.mouse_loc = (3, 4);
    let area = Rect {
        x: 0,
        y: 0,
        width: 40,
        height: 20,
    };
    // plenty of room: anchored at the pointer
    let r = a.calculate_popup_rect(4, 6, area);
    assert_eq!(Rect { x: 4, y: 3, width: 12, height: 4 }, r);
    // near the right/bottom edge: shifted left and up by the overflow
    a.mouse_loc = (19, 35);
    let r2 = a.calculate_popup_rect(4, 6, area);
    assert_eq!(Rect { x: 28, y: 16, width: 12, height: 4 }, r2);
}

#[test]
fn keyboard_scroll_follows_the_focused_pane() {
    let mut a = App::new();
    // with the changes list focused (or nothing focused) the list
    // offset scrolls, saturating at the top
    a.scroll_focused(Direction::Down);
    a.scroll_focused(Direction::Down);
    assert_eq!(2, a.list_state.offset);
    assert_eq!(2, a.changes_scrollbar_state.position);
    a.scroll_focused(Direction::Up);
    a.scroll_focused(Direction::Up);
    a.scroll_focused(Direction::Up);
    assert_eq!(0, a.list_state.offset);
    assert_eq!(0, a.changes_scrollbar_state.position);
    assert_eq!(None, a.list_state.selected);
    // with the conflicts pane focused its own offset scrolls instead
    a.selected_section = Some(AppSection::Conflicts);
    a.scroll_focused(Direction::Down);
    assert_eq!(1, a.conflicts_scroll_offset);
    assert_eq!(1, a.conflicts_scrollbar_state.position);
    assert_eq!(0, a.list_state.offset);
}
