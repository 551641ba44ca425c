//! Scrolling state of the interactive report and how keys and the mouse wheel move
//! it. The terminal loop that feeds these events lives with the program.

use vstd::prelude::*;

verus! {

/// The view's state: the first visible line and whether the user asked to quit.
#[derive(Debug, Clone, Copy, PartialEq, Eq, Structural)]
pub struct TuiState {
    pub offset: u16,
    pub quit: bool,
}

impl Default for TuiState {
    fn default() -> (s: Self)
        ensures
            s.offset == 0,
            !s.quit,
    {
        TuiState { offset: 0, quit: false }
    }
}

/// The keys the view tells apart.
#[derive(Debug, Clone, Copy, PartialEq, Eq, Structural)]
pub enum KeyCode {
    Down,
    Up,
    PageDown,
    PageUp,
    Char(char),
    Esc,
    Other,
}

/// The mouse events the view tells apart.
#[derive(Debug, Clone, Copy, PartialEq, Eq, Structural)]
pub enum MouseEventKind {
    ScrollDown,
    ScrollUp,
    Other,
}

/// Lines scrolled per mouse-wheel or trackpad notch.
pub const SCROLL_STEP: u16 = 3;

/// The largest offset: the lines that do not fit the viewport (none when all fit),
/// as a 16-bit count.
pub open spec fn max_scroll_spec(line_count: nat, viewport_h: nat) -> u16 {
    if line_count > viewport_h { ((line_count - viewport_h) % 65536) as u16 } else { 0 }
}

/// The largest scroll offset for `line_count` lines in a viewport of `viewport_h`.
pub fn max_scroll(line_count: usize, viewport_h: u16) -> (m: u16)
    ensures
        m == max_scroll_spec(line_count as nat, viewport_h as nat),
{
    let h = viewport_h as usize;
    if line_count > h {
        ((line_count - h) % 65536) as u16
    } else {
        0
    }
}

pub open spec fn min_int(a: int, b: int) -> int {
    if a < b { a } else { b }
}

pub open spec fn sat_sub(a: int, b: int) -> int {
    if a > b { a - b } else { 0 }
}

pub open spec fn is_down(code: KeyCode) -> bool {
    code == KeyCode::Down || code == KeyCode::Char('j')
}

pub open spec fn is_up(code: KeyCode) -> bool {
    code == KeyCode::Up || code == KeyCode::Char('k')
}

pub open spec fn is_quit(code: KeyCode) -> bool {
    code == KeyCode::Char('q') || code == KeyCode::Esc
}

/// A key's effect: down and up by one (`j`, `k`), by a page, to the top (`g`) or the
/// bottom (`G`), never past `max` or above 0; `q` and Esc ask to quit.
pub open spec fn key_step(code: KeyCode, s: TuiState, max: u16, page: u16) -> TuiState {
    if is_down(code) {
        TuiState { offset: min_int(s.offset + 1, max as int) as u16, ..s }
    } else if is_up(code) {
        TuiState { offset: sat_sub(s.offset as int, 1) as u16, ..s }
    } else if code == KeyCode::PageDown {
        TuiState { offset: min_int(s.offset + page, max as int) as u16, ..s }
    } else if code == KeyCode::PageUp {
        TuiState { offset: sat_sub(s.offset as int, page as int) as u16, ..s }
    } else if code == KeyCode::Char('g') {
        TuiState { offset: 0, ..s }
    } else if code == KeyCode::Char('G') {
        TuiState { offset: max, ..s }
    } else if is_quit(code) {
        TuiState { quit: true, ..s }
    } else {
        s
    }
}

/// The keys for which the offset arithmetic stays within 16 bits.
pub open spec fn key_in_range(code: KeyCode, s: TuiState, page: u16) -> bool {
    &&& is_down(code) ==> s.offset + 1 <= u16::MAX
    &&& code == KeyCode::PageDown ==> s.offset + page <= u16::MAX
}

/// Applies a key to the view's state.
pub fn handle_key(code: KeyCode, state: &mut TuiState, max: u16, page: u16)
    requires
        key_in_range(code, *old(state), page),
    ensures
        *final(state) == key_step(code, *old(state), max, page),
{
    match code {
        KeyCode::Down | KeyCode::Char('j') => {
            let o = state.offset + 1;
            state.offset = if o < max { o } else { max };
        },
        KeyCode::Up | KeyCode::Char('k') => {
            state.offset = if state.offset > 1 { state.offset - 1 } else { 0 };
        },
        KeyCode::PageDown => {
            let o = state.offset + page;
            state.offset = if o < max { o } else { max };
        },
        KeyCode::PageUp => {
            state.offset = if state.offset > page { state.offset - page } else { 0 };
        },
        KeyCode::Char('g') => {
            state.offset = 0;
        },
        KeyCode::Char('G') => {
            state.offset = max;
        },
        KeyCode::Char('q') | KeyCode::Esc => {
            state.quit = true;
        },
        _ => {},
    }
}

/// A wheel notch's effect: [`SCROLL_STEP`] lines down (never past `max`) or up (never
/// above 0).
pub open spec fn mouse_step(kind: MouseEventKind, s: TuiState, max: u16) -> TuiState {
    match kind {
        MouseEventKind::ScrollDown => TuiState { offset: min_int(s.offset + SCROLL_STEP, max as int) as u16, ..s },
        MouseEventKind::ScrollUp => TuiState { offset: sat_sub(s.offset as int, SCROLL_STEP as int) as u16, ..s },
        MouseEventKind::Other => s,
    }
}

/// Applies a mouse event to the view's state.
pub fn handle_mouse(kind: MouseEventKind, state: &mut TuiState, max: u16)
    requires
        kind == MouseEventKind::ScrollDown ==> old(state).offset + SCROLL_STEP <= u16::MAX,
    ensures
        *final(state) == mouse_step(kind, *old(state), max),
{
    match kind {
        MouseEventKind::ScrollDown => {
            let o = state.offset + SCROLL_STEP;
            state.offset = if o < max { o } else { max };
        },
        MouseEventKind::ScrollUp => {
            state.offset = if state.offset > SCROLL_STEP { state.offset - SCROLL_STEP } else { 0 };
        },
        MouseEventKind::Other => {},
    }
}

/// No key or wheel notch takes an offset within `0..=max` outside it, and none
/// withdraws a request to quit.
pub proof fn law_scroll_stays_in_bounds(code: KeyCode, kind: MouseEventKind, s: TuiState, max: u16, page: u16)
    requires
        s.offset <= max,
    ensures
        key_step(code, s, max, page).offset <= max,
        mouse_step(kind, s, max).offset <= max,
        s.quit ==> key_step(code, s, max, page).quit,
        key_step(code, s, max, page).quit == (s.quit || is_quit(code)),
{
}

/// One line down then one line up returns to the same place, away from the bottom;
/// one line up then down returns, away from the top; the same holds of a page and of
/// a wheel notch.
pub proof fn law_scroll_undo(s: TuiState, max: u16, page: u16)
    requires
        s.offset <= max,
    ensures
        s.offset < max ==> key_step(KeyCode::Up, key_step(KeyCode::Down, s, max, page), max, page) == s,
        s.offset > 0 ==> key_step(KeyCode::Down, key_step(KeyCode::Up, s, max, page), max, page) == s,
        s.offset + page <= max ==> key_step(KeyCode::PageUp, key_step(KeyCode::PageDown, s, max, page), max, page) == s,
        s.offset >= page ==> key_step(KeyCode::PageDown, key_step(KeyCode::PageUp, s, max, page), max, page) == s,
        s.offset + SCROLL_STEP <= max ==> mouse_step(MouseEventKind::ScrollUp, mouse_step(MouseEventKind::ScrollDown, s, max), max) == s,
{
}

} // verus!
