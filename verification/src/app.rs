//! The interaction state machine: hit-testing of pointer input against
//! the last-rendered regions, popup state, selection and scrolling, and
//! the decisions driven by keys, clicks and timer events.

use crate::command::Action;
use crate::config::Config;
use crate::svn::error::Error;
use crate::svn::filelist::{spec_renderable, FileList};
use crate::svn::state::State;
use crate::svn::{entries_view, ParsedStatusLine};
use vstd::prelude::*;

verus! {

/// A pointer location, in terminal cells.
#[derive(Debug, Clone, Copy, PartialEq, Eq, Structural)]
pub struct Position {
    pub x: u16,
    pub y: u16,
}

/// A rectangle last reported by the renderer for a named section, used
/// for input hit-testing until overwritten by the next frame.
#[derive(Debug, Clone, Copy, PartialEq, Eq, Structural)]
pub struct Rect {
    pub x: u16,
    pub y: u16,
    pub width: u16,
    pub height: u16,
}

impl Rect {
    /// The first column right of the rectangle, saturating at the
    /// coordinate range.
    pub open spec fn spec_right(self) -> int {
        if self.x + self.width > u16::MAX {
            u16::MAX as int
        } else {
            self.x + self.width
        }
    }

    /// The first row below the rectangle, saturating likewise.
    pub open spec fn spec_bottom(self) -> int {
        if self.y + self.height > u16::MAX {
            u16::MAX as int
        } else {
            self.y + self.height
        }
    }

    /// Containment: closed on the top/left edges, open on the
    /// bottom/right edges.
    pub open spec fn spec_contains(self, p: Position) -> bool {
        &&& self.x <= p.x
        &&& (p.x as int) < self.spec_right()
        &&& self.y <= p.y
        &&& (p.y as int) < self.spec_bottom()
    }

    /// Whether the rectangle contains the position.
    pub fn contains(&self, p: Position) -> (r: bool)
        ensures
            r == self.spec_contains(p),
    {
        p.x >= self.x && p.x < self.x.saturating_add(self.width) && p.y >= self.y && p.y
            < self.y.saturating_add(self.height)
    }
}

/// Which screen the dashboard is showing.
#[derive(Debug, Clone, Copy, PartialEq, Eq, Structural)]
pub enum AppState {
    /// The main screen.
    Main,
    /// The per-change action popup shown over the main screen.
    ChangePopup,
}

/// The named sections input can hit.
#[derive(Debug, Clone, Copy, PartialEq, Eq, Structural)]
pub enum AppSection {
    Changes,
    ChangePopup,
    Conflicts,
}

/// A scroll direction.
#[derive(Debug, Clone, Copy, PartialEq, Eq, Structural)]
pub enum Direction {
    Up,
    Down,
}

/// The pointer button of a click.
#[derive(Debug, Clone, Copy, PartialEq, Eq, Structural)]
pub enum MouseButton {
    Left,
    Right,
    Middle,
}

/// The key presses the dashboard reacts to.
#[derive(Debug, Clone, Copy, PartialEq, Eq, Structural)]
pub enum KeyCode {
    Esc,
    Char(char),
    Other,
}

/// The dashboard's own queued events.
#[derive(Debug, Clone, PartialEq)]
pub enum AppEvent {
    Quit,
    UpdateRequest,
    NextChange,
    PrevChange,
    SelectChange,
    Message(String),
}

/// Selection and scroll state of the changes list.
#[derive(Debug, Clone, Copy, PartialEq, Eq)]
pub struct ListState {
    pub offset: usize,
    pub selected: Option<usize>,
}

impl ListState {
    /// A list with no selection, scrolled to the top.
    pub fn new() -> (r: ListState)
        ensures
            r.offset == 0,
            r.selected is None,
    {
        ListState { offset: 0, selected: None }
    }

}

/// Scroll state mirrored to a rendered scrollbar.
#[derive(Debug, Clone, Copy, PartialEq, Eq, Structural)]
pub struct ScrollbarState {
    pub content_length: usize,
    pub position: usize,
    pub viewport_content_length: usize,
}

impl ScrollbarState {
    /// A scrollbar over `content_length` rows, at the top.
    pub fn new(content_length: usize) -> (r: ScrollbarState)
        ensures
            r == (ScrollbarState { content_length, position: 0, viewport_content_length: 0 }),
    {
        ScrollbarState { content_length, position: 0, viewport_content_length: 0 }
    }

    /// The same scrollbar at `position`.
    pub fn position(self, position: usize) -> (r: ScrollbarState)
        ensures
            r == (ScrollbarState { position, ..self }),
    {
        ScrollbarState { position, ..self }
    }

    /// The same scrollbar over `content_length` rows.
    pub fn content_length(self, content_length: usize) -> (r: ScrollbarState)
        ensures
            r == (ScrollbarState { content_length, ..self }),
    {
        ScrollbarState { content_length, ..self }
    }
}

/// An offset moved one step in a direction, saturating at both ends.
pub open spec fn spec_scrolled(offset: usize, dir: Direction) -> usize {
    match dir {
        Direction::Up => if offset > 0 {
            (offset - 1) as usize
        } else {
            0usize
        },
        Direction::Down => if offset < usize::MAX {
            (offset + 1) as usize
        } else {
            offset
        },
    }
}

/// The dashboard after scrolling the changes list one step: its list
/// offset moves and the changes scrollbar mirrors the new offset; the
/// selection is untouched.
pub open spec fn spec_changes_scrolled(a: App, dir: Direction) -> App {
    App {
        list_state: (ListState {
            offset: spec_scrolled(a.list_state.offset, dir),
            ..a.list_state
        }),
        changes_scrollbar_state: (ScrollbarState {
            position: spec_scrolled(a.list_state.offset, dir),
            ..a.changes_scrollbar_state
        }),
        ..a
    }
}

/// The dashboard after scrolling the conflicts pane one step: its
/// scroll offset moves and the conflicts scrollbar mirrors it.
pub open spec fn spec_conflicts_scrolled(a: App, dir: Direction) -> App {
    App {
        conflicts_scroll_offset: spec_scrolled(a.conflicts_scroll_offset, dir),
        conflicts_scrollbar_state: (ScrollbarState {
            position: spec_scrolled(a.conflicts_scroll_offset, dir),
            ..a.conflicts_scrollbar_state
        }),
        ..a
    }
}

/// The scroll primitive: move the scrolled scalar one step and mirror
/// the new value into the scrollbar's position.  The scrollbar position
/// is a pure projection of the offset, never an independent value.
pub fn handle_scroll(dir: &Direction, offset: &mut usize, bar_state: &mut ScrollbarState)
    ensures
        *final(offset) == spec_scrolled(*old(offset), *dir),
        *final(bar_state) == (ScrollbarState {
            position: spec_scrolled(*old(offset), *dir),
            ..*old(bar_state)
        }),
{
    match dir {
        Direction::Up => {
            *offset = offset.saturating_sub(1);
        },
        Direction::Down => {
            *offset = offset.saturating_add(1);
        },
    }
    *bar_state = bar_state.position(*offset);
}

/// Whether enough wall-clock time has passed for a refresh: strictly
/// more than `timeout` seconds.
pub fn is_time_for_update(elapsed_seconds: i64, timeout: u8) -> (r: bool)
    ensures
        r == (elapsed_seconds > timeout as i64),
{
    elapsed_seconds > (timeout as i64)
}

/// Relies on `chrono::Utc::now` and `chrono::DateTime::timestamp`: the
/// current wall-clock time as whole seconds since the Unix epoch.
/// Nothing is promised of the clock's value.  `Utc::now` panics when
/// the system clock reads before the Unix epoch; no input can exclude
/// that environment.
#[verifier::external_body]
fn now_epoch_seconds() -> i64 {
    chrono::Utc::now().timestamp()
}

/// Whether a refresh is due, `last_updated` being an epoch-second
/// reading.  This reads the wall clock, so nothing is promised of the
/// result; the boundary rule itself is `is_time_for_update`.
pub fn time_for_update(last_updated: i64, timeout: u8) -> bool {
    let now = now_epoch_seconds();
    let elapsed = match now.checked_sub(last_updated) {
        Some(d) => d,
        None => i64::MAX,
    };
    is_time_for_update(elapsed, timeout)
}

/// Resolve a pointer position to a section, topmost first: the action
/// popup over the changes list over the conflicts pane.
pub open spec fn spec_section_at(
    popup: Option<Rect>,
    changes: Option<Rect>,
    conflicts: Option<Rect>,
    p: Position,
) -> Option<AppSection> {
    if popup matches Some(r) && r.spec_contains(p) {
        Some(AppSection::ChangePopup)
    } else if changes matches Some(r) && r.spec_contains(p) {
        Some(AppSection::Changes)
    } else if conflicts matches Some(r) && r.spec_contains(p) {
        Some(AppSection::Conflicts)
    } else {
        None
    }
}

/// Hit-testing precedence: when the popup's region contains the pointer,
/// the popup is the resolved section, whatever the other regions hold.
pub proof fn lemma_popup_precedence(
    popup: Rect,
    changes: Option<Rect>,
    conflicts: Option<Rect>,
    p: Position,
)
    requires
        popup.spec_contains(p),
    ensures
        spec_section_at(Some(popup), changes, conflicts, p) == Some(AppSection::ChangePopup),
{
}

/// The renderable index addressed by a click at `mouse_row` into a list
/// region with top row `rect_y`, scrolled by `offset`: the row distance
/// plus the offset, minus one border row, saturating.
pub open spec fn spec_click_index(rect_y: u16, mouse_row: u16, offset: usize) -> int {
    let sum = mouse_row - rect_y + offset;
    let capped = if sum > usize::MAX {
        usize::MAX as int
    } else {
        sum
    };
    if capped >= 1 {
        capped - 1
    } else {
        0
    }
}

/// The action of the last rendered button whose rectangle contains the
/// pointer (the most recent layout wins).
pub open spec fn spec_button_action(bs: Seq<(Rect, Action)>, p: Position) -> Option<Action>
    decreases bs.len(),
{
    if bs.len() == 0 {
        None
    } else if bs.last().0.spec_contains(p) {
        Some(bs.last().1)
    } else {
        spec_button_action(bs.drop_last(), p)
    }
}

/// The popup anchor: at the pointer, sized by the button labels, and
/// shifted left/up by any overflow past the right/bottom edge of the
/// allowed area.
pub open spec fn spec_popup_rect(
    mouse_loc: (u16, u16),
    n_buttons: u16,
    max_label_len: u16,
    area: Rect,
) -> Rect {
    let width = if max_label_len + 6 > u16::MAX {
        u16::MAX as int
    } else {
        max_label_len + 6
    };
    let col0 = mouse_loc.1 as int;
    let row0 = mouse_loc.0 as int;
    let col = if col0 + width >= area.width {
        let over = col0 + width - area.width;
        if over >= col0 {
            0
        } else {
            col0 - over
        }
    } else {
        col0
    };
    let row = if row0 + n_buttons >= area.height {
        let over = row0 + n_buttons - area.height;
        if over >= row0 {
            0
        } else {
            row0 - over
        }
    } else {
        row0
    };
    Rect { x: col as u16, y: row as u16, width: width as u16, height: n_buttons }
}

/// The popup buttons offered for an entry state: `Open` always, then
/// each gated action whose capability predicate holds.
pub open spec fn spec_available_actions(state: State) -> Seq<Action> {
    let base = seq![Action::Open];
    let with_delete = if state.spec_is_deletable() {
        base.push(Action::Delete)
    } else {
        base
    };
    let with_revert = if state.spec_is_revertable() {
        with_delete.push(Action::Revert)
    } else {
        with_delete
    };
    let with_commit = if state.spec_is_commitable() {
        with_revert.push(Action::Commit)
    } else {
        with_revert
    };
    if state.spec_is_addable() {
        with_commit.push(Action::Add)
    } else {
        with_commit
    }
}

/// The popup buttons offered for an entry state.
pub fn available_actions(state: State) -> (r: Vec<Action>)
    ensures
        r@ == spec_available_actions(state),
{
    let mut out: Vec<Action> = Vec::new();
    out.push(Action::Open);
    if state.is_deletable() {
        out.push(Action::Delete);
    }
    if state.is_revertable() {
        out.push(Action::Revert);
    }
    if state.is_commitable() {
        out.push(Action::Commit);
    }
    if state.is_addable() {
        out.push(Action::Add);
    }
    proof {
        assert(out@ =~= spec_available_actions(state));
    }
    out
}

/// The interaction state of the dashboard.  The renderer reads the
/// model fields each frame and writes the regions it occupied back into
/// the `*_area` and `buttons` fields, which input hit-testing then uses
/// until the next frame.
#[derive(Debug)]
pub struct App {
    /// Whether the main loop keeps running.
    pub running: bool,
    /// The name of the current branch.
    pub current_branch: String,
    /// The parsed status entries.
    pub file_list: FileList,
    /// Selection and scroll state of the changes list.
    pub list_state: ListState,
    /// When the status was last fetched, in epoch seconds.
    pub last_updated: i64,
    /// The working-copy directory.
    pub cwd: String,
    pub changes_scrollbar_state: ScrollbarState,
    pub conflicts_scrollbar_state: ScrollbarState,
    /// Scroll offset of the conflicts pane (it has no selection).
    pub conflicts_scroll_offset: usize,
    /// Last-rendered regions, for hit-testing.
    pub changes_area: Option<Rect>,
    pub conflicts_area: Option<Rect>,
    /// The popup anchor, cached from the frame that opened the popup.
    pub change_popup_area: Option<Rect>,
    pub config: Config,
    /// Pointer location as (row, column).
    pub mouse_loc: (u16, u16),
    pub state: AppState,
    /// The section holding the input focus.
    pub selected_section: Option<AppSection>,
    pub has_focus: bool,
    /// The transient message line.
    pub last_message: String,
    /// The buttons rendered into the current popup frame.
    pub buttons: Vec<(Rect, Action)>,
}

impl App {
    /// The pointer location as a position (column, row).
    pub open spec fn spec_mouse_pos(self) -> Position {
        Position { x: self.mouse_loc.1, y: self.mouse_loc.0 }
    }

    /// The section under the pointer, by the z-ordered hit test.
    pub open spec fn spec_section(self) -> Option<AppSection> {
        spec_section_at(
            self.change_popup_area,
            self.changes_area,
            self.conflicts_area,
            self.spec_mouse_pos(),
        )
    }

    /// A fresh dashboard: running, empty, on the main screen.
    pub fn new() -> (r: App)
        ensures
            r.running,
            r.current_branch@.len() == 0,
            r.file_list@.len() == 0,
            r.list_state == (ListState { offset: 0, selected: None::<usize> }),
            r.cwd@.len() == 0,
            r.changes_scrollbar_state == (ScrollbarState {
                content_length: 0,
                position: 0,
                viewport_content_length: 0,
            }),
            r.conflicts_scrollbar_state == (ScrollbarState {
                content_length: 0,
                position: 0,
                viewport_content_length: 0,
            }),
            r.conflicts_scroll_offset == 0,
            r.changes_area is None,
            r.conflicts_area is None,
            r.change_popup_area is None,
            r.config.svn_status_timeout == 2,
            r.mouse_loc == (0u16, 0u16),
            r.state == AppState::Main,
            r.selected_section is None,
            r.has_focus,
            r.last_message@.len() == 0,
            r.buttons@.len() == 0,
    {
        App {
            running: true,
            current_branch: String::new(),
            file_list: FileList::empty(),
            list_state: ListState::new(),
            last_updated: now_epoch_seconds(),
            cwd: String::new(),
            changes_scrollbar_state: ScrollbarState::new(0),
            conflicts_scrollbar_state: ScrollbarState::new(0),
            conflicts_scroll_offset: 0,
            changes_area: None,
            conflicts_area: None,
            change_popup_area: None,
            config: Config::default(),
            mouse_loc: (0, 0),
            state: AppState::Main,
            selected_section: None,
            has_focus: true,
            last_message: String::new(),
            buttons: Vec::new(),
        }
    }

    /// The same dashboard with another configuration.
    pub fn with_config(self, config: Config) -> (r: App)
        ensures
            r == (App { config, ..self }),
    {
        App { config, ..self }
    }

    /// Stop the main loop.
    pub fn quit(&mut self)
        ensures
            *final(self) == (App { running: false, ..*old(self) }),
    {
        self.running = false;
    }

    /// Leave the popup and drop its cached anchor.
    pub fn close_change_popup(&mut self)
        ensures
            *final(self) == (App {
                state: AppState::Main,
                change_popup_area: None::<Rect>,
                ..*old(self)
            }),
    {
        self.state = AppState::Main;
        self.change_popup_area = None;
    }

    /// Record the pointer location of an input event, as (row, column).
    pub fn set_mouse_loc(&mut self, row: u16, column: u16)
        ensures
            *final(self) == (App { mouse_loc: (row, column), ..*old(self) }),
    {
        self.mouse_loc = (row, column);
    }

    /// The section under the pointer, topmost first.
    pub fn current_mouse_section(&self) -> (r: Option<AppSection>)
        ensures
            r == self.spec_section(),
    {
        let pos = Position { x: self.mouse_loc.1, y: self.mouse_loc.0 };
        if let Some(area) = self.change_popup_area {
            if area.contains(pos) {
                return Some(AppSection::ChangePopup);
            }
        }
        if let Some(area) = self.changes_area {
            if area.contains(pos) {
                return Some(AppSection::Changes);
            }
        }
        if let Some(area) = self.conflicts_area {
            if area.contains(pos) {
                return Some(AppSection::Conflicts);
            }
        }
        None
    }

    /// On the periodic tick, decide whether to request a refresh: the
    /// wall clock is compared against the configured timeout.
    pub fn tick(&self) -> bool {
        time_for_update(self.last_updated, self.config.svn_status_timeout)
    }

    /// Cycle the focused section between the changes list and the
    /// conflicts pane.
    pub fn toggle_focused_section(&mut self)
        ensures
            *final(self) == (App {
                selected_section: match old(self).selected_section {
                    Some(AppSection::Changes) => Some(AppSection::Conflicts),
                    Some(AppSection::Conflicts) => Some(AppSection::Changes),
                    _ => Some(AppSection::Changes),
                },
                ..*old(self)
            }),
    {
        self.selected_section = match self.selected_section {
            Some(AppSection::Changes) => Some(AppSection::Conflicts),
            Some(AppSection::Conflicts) => Some(AppSection::Changes),
            _ => Some(AppSection::Changes),
        };
    }

    /// Store a fetched status result: a parse replaces the whole list, a
    /// failure becomes the transient message.  The fetch time is read
    /// from the wall clock.
    pub fn apply_status_result(&mut self, result: Result<Vec<ParsedStatusLine>, Error>)
        ensures
            match result {
                Ok(v) => final(self).file_list@ == entries_view(v@) && final(self).last_message
                    == old(self).last_message,
                Err(e) => final(self).file_list == old(self).file_list
                    && final(self).last_message@ == e.spec_message(),
            },
            *final(self) == (App {
                file_list: final(self).file_list,
                last_message: final(self).last_message,
                last_updated: final(self).last_updated,
                ..*old(self)
            }),
    {
        match result {
            Ok(v) => {
                *self.file_list.list_mut() = v;
            },
            Err(e) => {
                self.last_message = e.message();
            },
        }
        self.last_updated = now_epoch_seconds();
    }

    /// Store a fetched branch name: a failure's message is shown in the
    /// branch box instead.
    pub fn apply_branch_result(&mut self, result: Result<String, Error>)
        ensures
            final(self).current_branch@ == match result {
                Ok(b) => b@,
                Err(e) => e.spec_message(),
            },
            *final(self) == (App { current_branch: final(self).current_branch, ..*old(self) }),
    {
        match result {
            Ok(b) => {
                self.current_branch = b;
            },
            Err(e) => {
                self.current_branch = e.message();
            },
        }
    }

    /// The selected entries (a single renderable entry today), or `None`
    /// when nothing valid is selected.
    pub fn get_selected_changes(&self) -> (r: Option<Vec<&ParsedStatusLine>>)
        ensures
            match r {
                Some(v) => self.list_state.selected matches Some(idx) && v@.len() == 1 && idx
                    < spec_renderable(self.file_list@).len() && ((v@[0]).0, (v@[0]).1@)
                    == spec_renderable(self.file_list@)[idx as int],
                None => match self.list_state.selected {
                    Some(idx) => idx >= spec_renderable(self.file_list@).len(),
                    None => true,
                },
            },
    {
        if let Some(index) = self.list_state.selected {
            match self.file_list.get(index) {
                Some(change) => {
                    let mut v: Vec<&ParsedStatusLine> = Vec::new();
                    v.push(change);
                    Some(v)
                },
                None => None,
            }
        } else {
            None
        }
    }
}

/// The screen state after a key press: escape closes the popup,
/// everything else leaves the screen as it is.
pub open spec fn spec_key_state(state: AppState, code: KeyCode, ctrl: bool) -> AppState {
    if code == KeyCode::Esc && state != AppState::Main {
        AppState::Main
    } else {
        state
    }
}

/// The event a key press queues: escape on the main screen or `q` (or
/// control-c) quits, `r` requests a refresh.
pub open spec fn spec_key_event(state: AppState, code: KeyCode, ctrl: bool) -> Option<AppEvent> {
    if code == KeyCode::Esc && state != AppState::Main {
        None
    } else if code == KeyCode::Esc || code == KeyCode::Char('q') {
        Some(AppEvent::Quit)
    } else if (code == KeyCode::Char('c') || code == KeyCode::Char('C')) && ctrl {
        Some(AppEvent::Quit)
    } else if code == KeyCode::Char('r') || code == KeyCode::Char('R') {
        Some(AppEvent::UpdateRequest)
    } else {
        None
    }
}

impl App {
    /// React to a key press: escape leaves the popup, escape or `q`
    /// (or control-c) quits from the main screen, and `r` requests a
    /// refresh.  The returned event is queued by the caller.
    pub fn handle_key_event(&mut self, code: KeyCode, ctrl: bool) -> (r: Option<AppEvent>)
        ensures
            final(self).state == spec_key_state(old(self).state, code, ctrl),
            *final(self) == (App { state: final(self).state, ..*old(self) }),
            r == spec_key_event(old(self).state, code, ctrl),
    {
        let is_esc = match code {
            KeyCode::Esc => true,
            _ => false,
        };
        if is_esc && self.state != AppState::Main {
            self.state = AppState::Main;
            return None;
        }
        match code {
            KeyCode::Esc => Some(AppEvent::Quit),
            KeyCode::Char(c) => {
                if c == 'q' {
                    Some(AppEvent::Quit)
                } else if (c == 'c' || c == 'C') && ctrl {
                    Some(AppEvent::Quit)
                } else if c == 'r' || c == 'R' {
                    Some(AppEvent::UpdateRequest)
                } else {
                    None
                }
            },
            KeyCode::Other => None,
        }
    }

    /// Consume one queued event.  Keyboard up/down scroll the focused
    /// pane through the scroll primitive.  The return value asks the
    /// caller to fetch fresh status and branch information (the one
    /// thing the state machine cannot do itself).
    pub fn apply_app_event(&mut self, event: AppEvent) -> (refresh: bool)
        ensures
            refresh == (event == AppEvent::UpdateRequest),
            match event {
                AppEvent::Quit => *final(self) == (App { running: false, ..*old(self) }),
                AppEvent::UpdateRequest => *final(self) == *old(self),
                AppEvent::NextChange => *final(self) == match old(self).selected_section {
                    Some(AppSection::Conflicts) => spec_conflicts_scrolled(
                        *old(self),
                        Direction::Down,
                    ),
                    _ => spec_changes_scrolled(*old(self), Direction::Down),
                },
                AppEvent::PrevChange => *final(self) == match old(self).selected_section {
                    Some(AppSection::Conflicts) => spec_conflicts_scrolled(
                        *old(self),
                        Direction::Up,
                    ),
                    _ => spec_changes_scrolled(*old(self), Direction::Up),
                },
                AppEvent::SelectChange => *final(self) == (App {
                    state: AppState::ChangePopup,
                    ..*old(self)
                }),
                AppEvent::Message(m) => *final(self) == (App { last_message: m, ..*old(self) }),
            },
    {
        match event {
            AppEvent::Quit => {
                self.quit();
                false
            },
            AppEvent::UpdateRequest => true,
            AppEvent::NextChange => {
                self.scroll_focused(Direction::Down);
                false
            },
            AppEvent::PrevChange => {
                self.scroll_focused(Direction::Up);
                false
            },
            AppEvent::SelectChange => {
                self.state = AppState::ChangePopup;
                false
            },
            AppEvent::Message(m) => {
                self.last_message = m;
                false
            },
        }
    }

    /// The terminal lost focus: close the popup, clear the selection,
    /// and remember that focus is gone.
    pub fn focus_lost(&mut self)
        ensures
            *final(self) == (App {
                state: AppState::Main,
                change_popup_area: None::<Rect>,
                list_state: (ListState { selected: None::<usize>, ..old(self).list_state }),
                has_focus: false,
                ..*old(self)
            }),
    {
        self.close_change_popup();
        self.list_state.selected = None;
        self.has_focus = false;
    }

    /// The terminal regained focus: remember it, and ask the caller to
    /// refresh.
    pub fn focus_gained(&mut self) -> (refresh: bool)
        ensures
            refresh,
            *final(self) == (App { has_focus: true, ..*old(self) }),
    {
        self.has_focus = true;
        true
    }

    /// Scroll under the pointer: the wheel routes through the scroll
    /// primitive on the hit pane's own offset — the changes list offset
    /// or the conflicts pane offset — with the paired scrollbar
    /// mirroring the new offset.  The hit section takes the focus.
    pub fn handle_mouse_scroll(&mut self, dir: Direction)
        ensures
            ({
                let sec = old(self).spec_section();
                let focused = App { selected_section: sec, ..*old(self) };
                match sec {
                    Some(AppSection::Changes) => *final(self) == spec_changes_scrolled(
                        focused,
                        dir,
                    ),
                    Some(AppSection::Conflicts) => *final(self) == spec_conflicts_scrolled(
                        focused,
                        dir,
                    ),
                    _ => *final(self) == focused,
                }
            }),
    {
        let section = self.current_mouse_section();
        self.selected_section = section;
        match section {
            Some(AppSection::Changes) => {
                let mut offset = self.list_state.offset;
                handle_scroll(&dir, &mut offset, &mut self.changes_scrollbar_state);
                self.list_state.offset = offset;
            },
            Some(AppSection::Conflicts) => {
                let mut offset = self.conflicts_scroll_offset;
                handle_scroll(&dir, &mut offset, &mut self.conflicts_scrollbar_state);
                self.conflicts_scroll_offset = offset;
            },
            _ => {},
        }
    }

    /// Scroll the focused pane one step: keyboard up/down routes through
    /// the same primitive as the wheel, parameterized by which pane
    /// holds the focus — the conflicts pane when it is focused, the
    /// changes list otherwise.
    pub fn scroll_focused(&mut self, dir: Direction)
        ensures
            *final(self) == match old(self).selected_section {
                Some(AppSection::Conflicts) => spec_conflicts_scrolled(*old(self), dir),
                _ => spec_changes_scrolled(*old(self), dir),
            },
    {
        match self.selected_section {
            Some(AppSection::Conflicts) => {
                let mut offset = self.conflicts_scroll_offset;
                handle_scroll(&dir, &mut offset, &mut self.conflicts_scrollbar_state);
                self.conflicts_scroll_offset = offset;
            },
            _ => {
                let mut offset = self.list_state.offset;
                handle_scroll(&dir, &mut offset, &mut self.changes_scrollbar_state);
                self.list_state.offset = offset;
            },
        }
    }

    /// The popup anchor for the current pointer location, clamped into
    /// the allowed area.
    pub fn calculate_popup_rect(&self, n_buttons: u16, max_label_len: u16, allowed_area: Rect) -> (r:
        Rect)
        ensures
            r == spec_popup_rect(self.mouse_loc, n_buttons, max_label_len, allowed_area),
    {
        let width = max_label_len.saturating_add(6);
        let (row0, col0) = self.mouse_loc;
        let mut col = col0;
        let cw = col0 as u32 + width as u32;
        if cw >= allowed_area.width as u32 {
            let over = cw - allowed_area.width as u32;
            col = if over >= col0 as u32 {
                0
            } else {
                col0 - (over as u16)
            };
        }
        let mut row = row0;
        let rh = row0 as u32 + n_buttons as u32;
        if rh >= allowed_area.height as u32 {
            let over = rh - allowed_area.height as u32;
            row = if over >= row0 as u32 {
                0
            } else {
                row0 - (over as u16)
            };
        }
        Rect { x: col, y: row, width, height: n_buttons }
    }

    /// React to a click.  Inside the changes list a right click selects
    /// the addressed row and opens the popup, a left click selects or
    /// clears; inside the popup the hit button's action is returned and
    /// the popup closes; anywhere else the selection clears and the
    /// popup closes.  The hit section takes the focus.
    pub fn handle_click(&mut self, button: MouseButton) -> (r: Option<Action>)
        ensures
            ({
                let sec = old(self).spec_section();
                let a = *final(self);
                match sec {
                    Some(AppSection::Changes) => r == None::<Action> && (match old(
                        self,
                    ).changes_area {
                        Some(rect) => {
                            let idx = spec_click_index(
                                rect.y,
                                old(self).mouse_loc.0,
                                old(self).list_state.offset,
                            );
                            let len = spec_renderable(old(self).file_list@).len();
                            if button == MouseButton::Right {
                                if idx <= len {
                                    a == (App {
                                        selected_section: sec,
                                        list_state: (ListState {
                                            selected: Some(idx as usize),
                                            ..old(self).list_state
                                        }),
                                        change_popup_area: None::<Rect>,
                                        state: AppState::ChangePopup,
                                        ..*old(self)
                                    })
                                } else {
                                    a == (App { selected_section: sec, ..*old(self) })
                                }
                            } else if button == MouseButton::Left {
                                if idx <= len {
                                    a == (App {
                                        selected_section: sec,
                                        state: AppState::Main,
                                        change_popup_area: None::<Rect>,
                                        list_state: (ListState {
                                            selected: Some(idx as usize),
                                            ..old(self).list_state
                                        }),
                                        ..*old(self)
                                    })
                                } else {
                                    a == (App {
                                        selected_section: sec,
                                        state: AppState::Main,
                                        change_popup_area: None::<Rect>,
                                        list_state: (ListState {
                                            selected: None::<usize>,
                                            ..old(self).list_state
                                        }),
                                        ..*old(self)
                                    })
                                }
                            } else {
                                a == (App {
                                    selected_section: sec,
                                    state: AppState::Main,
                                    change_popup_area: None::<Rect>,
                                    ..*old(self)
                                })
                            }
                        },
                        None => false,
                    }),
                    Some(AppSection::ChangePopup) => r == spec_button_action(
                        old(self).buttons@,
                        old(self).spec_mouse_pos(),
                    ) && a == (App {
                        selected_section: sec,
                        state: AppState::Main,
                        change_popup_area: None::<Rect>,
                        ..*old(self)
                    }),
                    _ => r == None::<Action> && a == (App {
                        selected_section: sec,
                        state: AppState::Main,
                        change_popup_area: None::<Rect>,
                        list_state: (ListState {
                            selected: None::<usize>,
                            ..old(self).list_state
                        }),
                        ..*old(self)
                    }),
                }
            }),
    {
        let section = self.current_mouse_section();
        self.selected_section = section;
        match section {
            Some(AppSection::Changes) => {
                if let Some(rect) = self.changes_area {
                    let offset_rows = self.mouse_loc.0 - rect.y;
                    let index = (offset_rows as usize).saturating_add(
                        self.list_state.offset,
                    ).saturating_sub(1);
                    let renderable_len = self.renderable_len();
                    if button == MouseButton::Right {
                        if index <= renderable_len {
                            self.list_state.selected = Some(index);
                            self.change_popup_area = None;
                            self.state = AppState::ChangePopup;
                        }
                    } else {
                        self.close_change_popup();
                    }
                    if button == MouseButton::Left {
                        if index <= renderable_len {
                            self.list_state.selected = Some(index);
                        } else {
                            self.list_state.selected = None;
                        }
                    }
                }
                None
            },
            Some(AppSection::ChangePopup) => {
                let action = self.clicked_button_action();
                self.close_change_popup();
                action
            },
            _ => {
                self.list_state.selected = None;
                self.close_change_popup();
                None
            },
        }
    }

    /// The number of renderable entries.
    fn renderable_len(&self) -> (r: usize)
        ensures
            r == spec_renderable(self.file_list@).len(),
    {
        self.file_list.renderable().len()
    }

    /// The action of the last rendered popup button under the pointer.
    fn clicked_button_action(&self) -> (r: Option<Action>)
        ensures
            r == spec_button_action(self.buttons@, self.spec_mouse_pos()),
    {
        let pos = Position { x: self.mouse_loc.1, y: self.mouse_loc.0 };
        let mut found: Option<Action> = None;
        let mut i: usize = 0;
        proof {
            assert(self.buttons@.take(0) =~= Seq::<(Rect, Action)>::empty());
        }
        while i < self.buttons.len()
            invariant
                i <= self.buttons@.len(),
                pos == self.spec_mouse_pos(),
                found == spec_button_action(self.buttons@.take(i as int), pos),
            decreases self.buttons@.len() - i,
        {
            let (rect, action) = self.buttons[i];
            proof {
                assert(self.buttons@.take(i as int + 1).drop_last() =~= self.buttons@.take(
                    i as int,
                ));
                assert(self.buttons@.take(i as int + 1).last() == self.buttons@[i as int]);
            }
            if rect.contains(pos) {
                found = Some(action);
            }
            i = i + 1;
        }
        proof {
            assert(self.buttons@.take(self.buttons@.len() as int) =~= self.buttons@);
        }
        found
    }
}

} // verus!
