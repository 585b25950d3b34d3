//! The life of timer windows: what the host is asked to create, and what its
//! answers mean.
//!
//! Nothing here touches a window. A [`WindowRequest`] describes a window for
//! the host to build, and the functions that read the host's answers take
//! those answers as plain values. The [`WindowManager`] owns the label
//! counter, so every request for a new window carries a label of its own.

use crate::aspect::Size;
use crate::ids::{can_issue, label_text, reconciled, IdAllocator, FIRST_NUMBER};
use vstd::prelude::*;
use vstd::string::*;

verus! {

/// Width of a new timer window, in pixels.
pub const DEFAULT_WIDTH: u32 = 312;

/// Height of a new timer window, in pixels.
pub const DEFAULT_HEIGHT: u32 = 125;

/// Smallest width the host lets a timer window take.
pub const MIN_WIDTH: u32 = 250;

/// Smallest height the host lets a timer window take.
pub const MIN_HEIGHT: u32 = 100;

/// How far, along each axis, a new window is set off from its anchor.
pub const ANCHOR_OFFSET: i64 = 30;

/// A saved window: its label, where it stood and how large it was.
#[derive(Debug, Clone)]
pub struct WindowState {
    pub id: String,
    pub x: Option<i32>,
    pub y: Option<i32>,
    pub width: u32,
    pub height: u32,
}

/// What a [`WindowState`] holds, with its label as a sequence of characters.
pub struct WindowStateView {
    pub id: Seq<char>,
    pub x: Option<i32>,
    pub y: Option<i32>,
    pub width: u32,
    pub height: u32,
}

impl View for WindowState {
    type V = WindowStateView;

    open spec fn view(&self) -> WindowStateView {
        WindowStateView {
            id: self.id@,
            x: self.x,
            y: self.y,
            width: self.width,
            height: self.height,
        }
    }
}

impl DeepView for WindowState {
    type V = WindowStateView;

    open spec fn deep_view(&self) -> WindowStateView {
        self@
    }
}

/// Where the host is asked to put a window.
#[derive(Clone, Copy, Debug, PartialEq, Eq, Structural)]
pub struct Position {
    pub x: i64,
    pub y: i64,
}

/// The decoration and behaviour of a window.
#[derive(Clone, Copy, Debug, PartialEq, Eq, Structural)]
pub struct Chrome {
    pub decorations: bool,
    pub transparent: bool,
    pub always_on_top: bool,
    pub resizable: bool,
    pub shadow: bool,
    pub visible: bool,
}

/// The chrome of every timer window: no border, no shadow, see-through,
/// above other windows, resizable and shown at once.
pub open spec fn timer_chrome() -> Chrome {
    Chrome {
        decorations: false,
        transparent: true,
        always_on_top: true,
        resizable: true,
        shadow: false,
        visible: true,
    }
}

impl Chrome {
    /// The chrome of a timer window.
    pub fn timer() -> (chrome: Chrome)
        ensures
            chrome == timer_chrome(),
    {
        Chrome {
            decorations: false,
            transparent: true,
            always_on_top: true,
            resizable: true,
            shadow: false,
            visible: true,
        }
    }
}

/// A window for the host to build.
#[derive(Debug, Clone)]
pub struct WindowRequest {
    pub label: String,
    pub url: String,
    pub title: String,
    pub inner_size: Size,
    pub min_inner_size: Size,
    /// `None` leaves the placement to the host.
    pub position: Option<Position>,
    pub chrome: Chrome,
}

/// What a [`WindowRequest`] holds, with its texts as sequences of characters.
pub struct WindowRequestView {
    pub label: Seq<char>,
    pub url: Seq<char>,
    pub title: Seq<char>,
    pub inner_size: Size,
    pub min_inner_size: Size,
    pub position: Option<Position>,
    pub chrome: Chrome,
}

impl View for WindowRequest {
    type V = WindowRequestView;

    open spec fn view(&self) -> WindowRequestView {
        WindowRequestView {
            label: self.label@,
            url: self.url@,
            title: self.title@,
            inner_size: self.inner_size,
            min_inner_size: self.min_inner_size,
            position: self.position,
            chrome: self.chrome,
        }
    }
}

impl DeepView for WindowRequest {
    type V = WindowRequestView;

    open spec fn deep_view(&self) -> WindowRequestView {
        self@
    }
}

/// The page that the window labelled `label` shows: the timer page, told
/// its label in the query.
pub open spec fn page_url(label: Seq<char>) -> Seq<char> {
    "index.html?windowId="@ + label
}

/// The title of every timer window.
pub open spec fn window_title() -> Seq<char> {
    "Countdown Timer"@
}

/// The size of a new timer window.
pub open spec fn default_size() -> Size {
    Size { width: DEFAULT_WIDTH, height: DEFAULT_HEIGHT }
}

/// The smallest size of a timer window.
pub open spec fn min_size() -> Size {
    Size { width: MIN_WIDTH, height: MIN_HEIGHT }
}

/// The request for a timer window with the given label, size and position.
pub open spec fn timer_request(
    label: Seq<char>,
    size: Size,
    position: Option<Position>,
) -> WindowRequestView {
    WindowRequestView {
        label,
        url: page_url(label),
        title: window_title(),
        inner_size: size,
        min_inner_size: min_size(),
        position,
        chrome: timer_chrome(),
    }
}

/// The position given by two coordinates, moved by `offset` along each axis.
/// Where either coordinate is missing there is no position.
pub open spec fn position_at(x: Option<i32>, y: Option<i32>, offset: int) -> Option<Position> {
    match (x, y) {
        (Some(px), Some(py)) => Some(Position { x: (px + offset) as i64, y: (py + offset) as i64 }),
        _ => None,
    }
}

/// The request for a new window labelled `label`, set off from the anchor
/// `(x, y)` where one is given.
pub open spec fn new_window_request(
    label: Seq<char>,
    x: Option<i32>,
    y: Option<i32>,
) -> WindowRequestView {
    timer_request(label, default_size(), position_at(x, y, ANCHOR_OFFSET as int))
}

/// The request that brings back the saved window `state`: its own label, its
/// saved size and, where both coordinates were saved, its saved position.
pub open spec fn restore_request(state: WindowStateView) -> WindowRequestView {
    timer_request(
        state.id,
        Size { width: state.width, height: state.height },
        position_at(state.x, state.y, 0),
    )
}

/// The label of the window that the host creates by itself at start-up.
pub open spec fn main_label() -> Seq<char> {
    "main"@
}

/// The requests that bring back the saved windows `states`: one for each
/// state but those of the main window, in the order of the states.
pub open spec fn restore_requests(states: Seq<WindowStateView>) -> Seq<WindowRequestView> {
    states.filter(|state: WindowStateView| state.id != main_label()).map_values(
        |state: WindowStateView| restore_request(state),
    )
}

/// The page that the window labelled `label` shows.
pub fn page_url_for(label: &str) -> (url: String)
    ensures
        url@ == page_url(label@),
{
    let mut url: String = String::from_str("index.html?windowId=");
    url.append(label);
    url
}

/// Puts together the request for a timer window.
fn build_request(label: String, size: Size, position: Option<Position>) -> (request: WindowRequest)
    ensures
        request@ == timer_request(label@, size, position),
{
    let url: String = page_url_for(label.as_str());
    WindowRequest {
        label,
        url,
        title: String::from_str("Countdown Timer"),
        inner_size: size,
        min_inner_size: Size { width: MIN_WIDTH, height: MIN_HEIGHT },
        position,
        chrome: Chrome::timer(),
    }
}

/// The position given by two coordinates, moved by `offset` along each axis.
fn place(x: Option<i32>, y: Option<i32>, offset: i64) -> (position: Option<Position>)
    requires
        0 <= offset <= ANCHOR_OFFSET,
    ensures
        position == position_at(x, y, offset as int),
{
    match (x, y) {
        (Some(px), Some(py)) => Some(Position { x: px as i64 + offset, y: py as i64 + offset }),
        _ => None,
    }
}

/// The request that brings back a saved window.
pub fn restore_request_for(state: &WindowState) -> (request: WindowRequest)
    ensures
        request@ == restore_request(state@),
{
    build_request(
        state.id.clone(),
        Size { width: state.width, height: state.height },
        place(state.x, state.y, 0),
    )
}

/// Plans the return of saved windows.
///
/// The plan holds one request for each saved state, in order, but none for
/// the main window, which the host has created already.
pub fn restore_plan(states: &Vec<WindowState>) -> (plan: Vec<WindowRequest>)
    ensures
        plan.deep_view() == restore_requests(states.deep_view()),
{
    let main: String = String::from_str("main");
    let mut plan: Vec<WindowRequest> = Vec::new();
    let ghost all = states.deep_view();
    let ghost keep = |state: WindowStateView| state.id != main_label();
    let ghost turn = |state: WindowStateView| restore_request(state);
    let mut i: usize = 0;
    assert(all.take(0).filter(keep) =~= Seq::<WindowStateView>::empty()) by {
        reveal(Seq::filter);
    }
    while i < states.len()
        invariant
            i <= states.len(),
            main@ == main_label(),
            all == states.deep_view(),
            keep == |state: WindowStateView| state.id != main_label(),
            turn == |state: WindowStateView| restore_request(state),
            plan.deep_view() =~= all.take(i as int).filter(keep).map_values(turn),
        decreases states.len() - i,
    {
        let state: &WindowState = &states[i];
        let ghost before = plan.deep_view();
        let ghost seen = all.take(i as int);
        proof {
            assert(all.take(i + 1) =~= seen.push(state@));
            seen.lemma_filter_push(state@, keep);
        }
        if !(state.id == main) {
            let request: WindowRequest = restore_request_for(state);
            plan.push(request);
            assert(plan.deep_view() =~= before.push(request@));
            assert(seen.filter(keep).push(state@).map_values(turn) =~= seen.filter(
                keep,
            ).map_values(turn).push(turn(state@)));
        }
        i = i + 1;
    }
    assert(all.take(i as int) =~= all);
    plan
}

/// Hands out the labels of new windows and plans what the host is to build.
#[derive(Debug)]
pub struct WindowManager {
    ids: IdAllocator,
}

impl WindowManager {
    /// The number that the label of the next new window will carry.
    pub closed spec fn counter(&self) -> nat {
        self.ids.counter()
    }

    /// A manager whose first new window is `timer-1`.
    pub fn new() -> (manager: Self)
        ensures
            manager.counter() == FIRST_NUMBER,
    {
        WindowManager { ids: IdAllocator::new() }
    }

    /// The number that the label of the next new window will carry.
    pub fn next_number(&self) -> (number: u64)
        ensures
            number == self.counter(),
    {
        self.ids.next_number()
    }

    /// Plans a new timer window.
    ///
    /// The window takes the next label, the default size and, where both
    /// coordinates of an anchor are given, the position `ANCHOR_OFFSET`
    /// pixels right of and below the anchor. The label is spent whether or
    /// not the host then builds the window. Returns `None`, and spends
    /// nothing, once the labels have run out.
    pub fn create_window(&mut self, x: Option<i32>, y: Option<i32>) -> (request: Option<
        WindowRequest,
    >)
        ensures
            match request {
                Some(r) => {
                    &&& can_issue(old(self).counter())
                    &&& r@ == new_window_request(label_text(old(self).counter()), x, y)
                    &&& final(self).counter() == old(self).counter() + 1
                },
                None => {
                    &&& !can_issue(old(self).counter())
                    &&& final(self).counter() == old(self).counter()
                },
            },
    {
        match self.ids.next_id() {
            Some(label) => Some(
                build_request(
                    label,
                    Size { width: DEFAULT_WIDTH, height: DEFAULT_HEIGHT },
                    place(x, y, ANCHOR_OFFSET),
                ),
            ),
            None => None,
        }
    }

    /// Plans the return of saved windows; see [`restore_plan`]. The counter
    /// moves only as the host reports each window built, through
    /// [`WindowManager::window_restored`].
    pub fn restore_windows(&self, states: &Vec<WindowState>) -> (plan: Vec<WindowRequest>)
        ensures
            plan.deep_view() == restore_requests(states.deep_view()),
    {
        restore_plan(states)
    }

    /// Takes note that the host has built the restored window `label`, so
    /// that no new window is given the same label.
    pub fn window_restored(&mut self, label: &str)
        ensures
            final(self).counter() == reconciled(old(self).counter(), label@),
    {
        self.ids.reconcile(label);
    }
}

/// Where a window stands and how large it is, as the host reports it: the
/// outer position and the inner size.
#[derive(Clone, Copy, Debug, PartialEq, Eq, Structural)]
pub struct Geometry {
    pub x: i32,
    pub y: i32,
    pub width: u32,
    pub height: u32,
}

/// Why a request about a window failed.
#[derive(Debug, Clone, PartialEq, Eq)]
pub enum WindowError {
    /// The host failed; the text is what it said.
    Host(String),
    /// No window has the label that the text holds.
    NotFound(String),
}

/// What a [`WindowError`] holds, with its text as a sequence of characters.
pub enum WindowErrorView {
    Host(Seq<char>),
    NotFound(Seq<char>),
}

impl View for WindowError {
    type V = WindowErrorView;

    open spec fn view(&self) -> WindowErrorView {
        match self {
            WindowError::Host(said) => WindowErrorView::Host(said@),
            WindowError::NotFound(id) => WindowErrorView::NotFound(id@),
        }
    }
}

/// The message that tells a caller of `error`: the host's own words, or
/// `Window <label> not found`.
pub open spec fn error_message(error: WindowErrorView) -> Seq<char> {
    match error {
        WindowErrorView::Host(said) => said,
        WindowErrorView::NotFound(id) => "Window "@ + id + " not found"@,
    }
}

impl WindowError {
    /// The message that tells a caller of this error.
    pub fn message(&self) -> (text: String)
        ensures
            text@ == error_message(self@),
    {
        match self {
            WindowError::Host(said) => said.clone(),
            WindowError::NotFound(id) => {
                let mut text: String = String::from_str("Window ");
                text.append(id.as_str());
                text.append(" not found");
                text
            },
        }
    }
}

/// The saved state of the window `id` that stands as `geometry` says.
pub open spec fn observed_state(id: Seq<char>, geometry: Geometry) -> WindowStateView {
    WindowStateView {
        id,
        x: Some(geometry.x),
        y: Some(geometry.y),
        width: geometry.width,
        height: geometry.height,
    }
}

/// Reads the host's answer to the question where the window `id` stands.
///
/// `probe` is `None` where the host knows no window of that label, and
/// otherwise what the host said: the geometry, or why it could not tell.
/// The first gives `NotFound` with the label, a failure gives `Host` with
/// the host's words, and a geometry gives the state of the window.
pub fn window_state(id: String, probe: Option<Result<Geometry, String>>) -> (outcome: Result<
    WindowState,
    WindowError,
>)
    ensures
        match probe {
            None => outcome matches Err(error) && error@ == WindowErrorView::NotFound(id@),
            Some(Err(said)) => outcome matches Err(error) && error@ == WindowErrorView::Host(
                said@,
            ),
            Some(Ok(geometry)) => outcome matches Ok(state) && state@ == observed_state(
                id@,
                geometry,
            ),
        },
{
    match probe {
        None => Err(WindowError::NotFound(id)),
        Some(Err(said)) => Err(WindowError::Host(said)),
        Some(Ok(geometry)) => Ok(
            WindowState {
                id,
                x: Some(geometry.x),
                y: Some(geometry.y),
                width: geometry.width,
                height: geometry.height,
            },
        ),
    }
}

/// Reads the host's answer to the request to close a window.
///
/// `answer` is `None` where the host knows no window of that label, so that
/// nothing was closed, and otherwise the host's word on the closing. Closing
/// a window that is not there is no error; only a failure of the host is.
pub fn close_outcome(answer: Option<Result<(), String>>) -> (outcome: Result<(), WindowError>)
    ensures
        match answer {
            None => outcome is Ok,
            Some(Ok(_)) => outcome is Ok,
            Some(Err(said)) => outcome matches Err(error) && error@ == WindowErrorView::Host(
                said@,
            ),
        },
{
    match answer {
        None => Ok(()),
        Some(Ok(_)) => Ok(()),
        Some(Err(said)) => Err(WindowError::Host(said)),
    }
}

} // verus!
