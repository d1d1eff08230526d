//! The loop of the tool as a state machine.
//!
//! The machine never touches the operating system. It hands out an
//! [`Action`], the caller performs it and reports the outcome as an
//! [`Event`], and [`step`] answers with the next state and the next action.
//! One pass goes from the first prompt through the click, the title lookup,
//! the confirmation, the three rectangle queries and the move, and ends at
//! the first prompt again, which then shows how the pass ended. Only a
//! cancelled first prompt ends the run.

use crate::geometry::{
    centered_x,
    centered_y,
    checked_center_position,
    target_representable,
    Point,
    Rect,
};
use crate::status::LastOperationStatus;
use crate::text::{confirmation_message, confirmation_units, prompt_message, prompt_units};
use crate::title::{
    lemma_fetched_title_length,
    lemma_placeholder_is_not_empty,
    length_in_range,
    placeholder_title,
    placeholder_units,
    plan_title_lookup,
    title_from_buffer,
    title_of_buffer,
    title_plan,
    TitlePlan,
};
use vstd::prelude::*;

verus! {

/// Milliseconds between two looks at the pointer button while it is up.
pub const POLL_INTERVAL_MS: u32 = 50;

/// Identifies a top-level window. The value is only ever handed back to the
/// system; nothing is read from it.
#[derive(Clone, Copy, Debug, PartialEq, Eq, Structural)]
pub struct WindowHandle {
    pub raw: isize,
}

/// The two ways a dialog can be closed.
#[derive(Clone, Copy, Debug, PartialEq, Eq, Structural)]
pub enum DialogAnswer {
    Proceed,
    Cancel,
}

/// A request to move a window's top-left corner to `(x, y)`. The flags say
/// what the move must leave alone.
#[derive(Clone, Copy, Debug, PartialEq, Eq, Structural)]
pub struct Placement {
    pub x: i32,
    pub y: i32,
    pub keep_size: bool,
    pub keep_z_order: bool,
    pub keep_activation: bool,
}

/// Where the machine stands; each state but the last waits for the outcome
/// of one action.
#[derive(Clone, Copy, Debug, PartialEq, Eq)]
pub enum State {
    /// The first prompt is showing, with the outcome of the previous pass.
    /// A pass that placed the window ends here with `Success`.
    Idle { last: Option<LastOperationStatus> },
    /// Waiting for the primary pointer button to go down.
    AwaitingClick,
    /// The button went down; the foreground window is being asked for.
    AcquiringTarget,
    /// The length of the window's title is being asked for.
    ReadingTitleLength { handle: WindowHandle },
    /// The title is being fetched into a buffer of `capacity` units.
    FetchingTitle { handle: WindowHandle, capacity: i32 },
    /// The second prompt is showing, with the title.
    Confirming { handle: WindowHandle },
    /// Geometry, first query: the work area of the hosting monitor.
    ResolvingWorkArea { handle: WindowHandle },
    /// Geometry, second query: the visible frame.
    ResolvingVisibleFrame { handle: WindowHandle, work_area: Rect },
    /// Geometry, third query: the logical frame.
    ResolvingLogicalFrame { handle: WindowHandle, work_area: Rect, visible: Rect },
    /// The target has been computed and the move is under way.
    Centering { handle: WindowHandle, target: Point },
    /// The user cancelled the first prompt. Nothing follows.
    Finished,
}

/// What the caller reports back.
#[derive(Debug, PartialEq, Eq)]
pub enum Event {
    /// A dialog was closed.
    Dialog(DialogAnswer),
    /// The state of the primary pointer button; zero means not pressed.
    Pointer { key_state: i16 },
    /// The foreground window, or `None` where the system named none.
    Foreground(Option<WindowHandle>),
    /// The reported length of the title, and the error code read right
    /// after a length of zero.
    TitleLength { length: i32, last_error: u32 },
    /// The buffer after the fetch, and the number of units that the fetch
    /// reported as copied.
    TitleText { copied: i32, buffer: Vec<u16> },
    /// The work area of the monitor nearest to the window, or `None` where
    /// the query failed.
    WorkArea(Option<Rect>),
    /// The extended frame bounds, or `None` where the query failed.
    VisibleFrame(Option<Rect>),
    /// The window rectangle, or `None` where the query failed.
    LogicalFrame(Option<Rect>),
    /// Whether the move succeeded.
    Placed(bool),
}

/// What the caller is asked to do next.
#[derive(Debug, PartialEq, Eq)]
pub enum Action {
    /// Show a dialog with the two answers and wait for one of them. `text`
    /// ends with a zero unit. `topmost` asks for a dialog above all windows.
    ShowDialog { text: Vec<u16>, topmost: bool },
    /// Wait for `delay_ms` milliseconds, then read the state of the primary
    /// pointer button.
    PollPointer { delay_ms: u32 },
    /// Read the foreground window.
    QueryForeground,
    /// Read the length of the window's title.
    QueryTitleLength { handle: WindowHandle },
    /// Fetch the title into a zeroed buffer of `capacity` units.
    FetchTitle { handle: WindowHandle, capacity: i32 },
    /// Read the work area of the monitor nearest to the window.
    QueryWorkArea { handle: WindowHandle },
    /// Read the extended frame bounds of the window.
    QueryVisibleFrame { handle: WindowHandle },
    /// Read the window rectangle.
    QueryLogicalFrame { handle: WindowHandle },
    /// Move the window.
    Place { handle: WindowHandle, placement: Placement },
    /// Leave the program.
    Exit,
}

/// The mathematical value of an [`Event`].
pub enum EventView {
    Dialog(DialogAnswer),
    Pointer { key_state: i16 },
    Foreground(Option<WindowHandle>),
    TitleLength { length: i32, last_error: u32 },
    TitleText { copied: i32, buffer: Seq<u16> },
    WorkArea(Option<Rect>),
    VisibleFrame(Option<Rect>),
    LogicalFrame(Option<Rect>),
    Placed(bool),
}

/// The mathematical value of an [`Action`].
pub enum ActionView {
    ShowDialog { text: Seq<u16>, topmost: bool },
    PollPointer { delay_ms: u32 },
    QueryForeground,
    QueryTitleLength { handle: WindowHandle },
    FetchTitle { handle: WindowHandle, capacity: i32 },
    QueryWorkArea { handle: WindowHandle },
    QueryVisibleFrame { handle: WindowHandle },
    QueryLogicalFrame { handle: WindowHandle },
    Place { handle: WindowHandle, placement: Placement },
    Exit,
}

impl View for Event {
    type V = EventView;

    open spec fn view(&self) -> EventView {
        match *self {
            Event::Dialog(answer) => EventView::Dialog(answer),
            Event::Pointer { key_state } => EventView::Pointer { key_state },
            Event::Foreground(handle) => EventView::Foreground(handle),
            Event::TitleLength { length, last_error } => EventView::TitleLength {
                length,
                last_error,
            },
            Event::TitleText { copied, buffer } => EventView::TitleText {
                copied,
                buffer: buffer@,
            },
            Event::WorkArea(rect) => EventView::WorkArea(rect),
            Event::VisibleFrame(rect) => EventView::VisibleFrame(rect),
            Event::LogicalFrame(rect) => EventView::LogicalFrame(rect),
            Event::Placed(moved) => EventView::Placed(moved),
        }
    }
}

impl View for Action {
    type V = ActionView;

    open spec fn view(&self) -> ActionView {
        match *self {
            Action::ShowDialog { text, topmost } => ActionView::ShowDialog { text: text@, topmost },
            Action::PollPointer { delay_ms } => ActionView::PollPointer { delay_ms },
            Action::QueryForeground => ActionView::QueryForeground,
            Action::QueryTitleLength { handle } => ActionView::QueryTitleLength { handle },
            Action::FetchTitle { handle, capacity } => ActionView::FetchTitle { handle, capacity },
            Action::QueryWorkArea { handle } => ActionView::QueryWorkArea { handle },
            Action::QueryVisibleFrame { handle } => ActionView::QueryVisibleFrame { handle },
            Action::QueryLogicalFrame { handle } => ActionView::QueryLogicalFrame { handle },
            Action::Place { handle, placement } => ActionView::Place { handle, placement },
            Action::Exit => ActionView::Exit,
        }
    }
}

impl State {
    /// The window that the pass is about, once one has been captured.
    pub open spec fn handle(self) -> Option<WindowHandle> {
        match self {
            State::Idle { .. } | State::AwaitingClick | State::AcquiringTarget | State::Finished => None,
            State::ReadingTitleLength { handle } => Some(handle),
            State::FetchingTitle { handle, .. } => Some(handle),
            State::Confirming { handle } => Some(handle),
            State::ResolvingWorkArea { handle } => Some(handle),
            State::ResolvingVisibleFrame { handle, .. } => Some(handle),
            State::ResolvingLogicalFrame { handle, .. } => Some(handle),
            State::Centering { handle, .. } => Some(handle),
        }
    }
}

impl ActionView {
    /// The window that the action is to be performed on, if any.
    pub open spec fn handle(self) -> Option<WindowHandle> {
        match self {
            ActionView::ShowDialog { .. }
            | ActionView::PollPointer { .. }
            | ActionView::QueryForeground
            | ActionView::Exit => None,
            ActionView::QueryTitleLength { handle } => Some(handle),
            ActionView::FetchTitle { handle, .. } => Some(handle),
            ActionView::QueryWorkArea { handle } => Some(handle),
            ActionView::QueryVisibleFrame { handle } => Some(handle),
            ActionView::QueryLogicalFrame { handle } => Some(handle),
            ActionView::Place { handle, .. } => Some(handle),
        }
    }
}

/// A move to `target` that changes the position and nothing else.
pub open spec fn position_only(target: Point) -> Placement {
    Placement { x: target.x, y: target.y, keep_size: true, keep_z_order: true, keep_activation: true }
}

/// The state and the action with which every pass begins: the first prompt,
/// above all windows, with the status line of `last`.
pub open spec fn prompt(last: Option<LastOperationStatus>) -> (State, ActionView) {
    (State::Idle { last }, ActionView::ShowDialog { text: prompt_units(last), topmost: true })
}

/// The state and the action with which a pass goes on to the second prompt,
/// which shows `title`.
pub open spec fn confirm(handle: WindowHandle, title: Seq<u16>) -> (State, ActionView) {
    (
        State::Confirming { handle },
        ActionView::ShowDialog { text: confirmation_units(title), topmost: false },
    )
}

/// Whether `event` is the outcome of the action that `state` waits for, and
/// within what the machine can count: a title length for which a buffer can
/// be sized, a buffer of the size that was asked for, and frames whose
/// target corner is a pair of `i32`.
pub open spec fn accepts(state: State, event: EventView) -> bool {
    match (state, event) {
        (State::Idle { .. }, EventView::Dialog(_)) => true,
        (State::AwaitingClick, EventView::Pointer { .. }) => true,
        (State::AcquiringTarget, EventView::Foreground(_)) => true,
        (State::ReadingTitleLength { .. }, EventView::TitleLength { length, .. }) => length_in_range(
            length,
        ),
        (State::FetchingTitle { capacity, .. }, EventView::TitleText { buffer, .. }) => buffer.len()
            == capacity,
        (State::Confirming { .. }, EventView::Dialog(_)) => true,
        (State::ResolvingWorkArea { .. }, EventView::WorkArea(_)) => true,
        (State::ResolvingVisibleFrame { .. }, EventView::VisibleFrame(_)) => true,
        (
            State::ResolvingLogicalFrame { work_area, visible, .. },
            EventView::LogicalFrame(logical),
        ) => logical matches Some(rect) ==> target_representable(work_area@, visible@, rect@),
        (State::Centering { .. }, EventView::Placed(_)) => true,
        _ => false,
    }
}

/// The transition of the machine, for an event that the state accepts.
/// Every failure and the success lead back to the first prompt and differ
/// only in the status that it shows. The last row stands for the pairs that
/// are not accepted; [`step_model`] never consults it.
pub open spec fn transition(state: State, event: EventView) -> (State, ActionView) {
    match (state, event) {
        (State::Idle { .. }, EventView::Dialog(answer)) => match answer {
            DialogAnswer::Proceed => (State::AwaitingClick, ActionView::PollPointer { delay_ms: 0 }),
            DialogAnswer::Cancel => (State::Finished, ActionView::Exit),
        },
        (State::AwaitingClick, EventView::Pointer { key_state }) => if key_state == 0 {
            (State::AwaitingClick, ActionView::PollPointer { delay_ms: POLL_INTERVAL_MS })
        } else {
            (State::AcquiringTarget, ActionView::QueryForeground)
        },
        (State::AcquiringTarget, EventView::Foreground(found)) => match found {
            Some(handle) => (
                State::ReadingTitleLength { handle },
                ActionView::QueryTitleLength { handle },
            ),
            None => prompt(Some(LastOperationStatus::ForegroundResolutionFailed)),
        },
        (
            State::ReadingTitleLength { handle },
            EventView::TitleLength { length, last_error },
        ) => match title_plan(length, last_error) {
            TitlePlan::UsePlaceholder => confirm(handle, placeholder_units()),
            TitlePlan::Fetch { capacity } => (
                State::FetchingTitle { handle, capacity },
                ActionView::FetchTitle { handle, capacity },
            ),
            TitlePlan::Fail => prompt(Some(LastOperationStatus::TitleLengthQueryFailed)),
        },
        (State::FetchingTitle { handle, .. }, EventView::TitleText { copied, buffer }) => if copied
            == 0 {
            prompt(Some(LastOperationStatus::TitleFetchFailed))
        } else {
            confirm(handle, title_of_buffer(buffer))
        },
        (State::Confirming { handle }, EventView::Dialog(answer)) => match answer {
            DialogAnswer::Proceed => (
                State::ResolvingWorkArea { handle },
                ActionView::QueryWorkArea { handle },
            ),
            DialogAnswer::Cancel => prompt(Some(LastOperationStatus::CancelledByUser)),
        },
        (State::ResolvingWorkArea { handle }, EventView::WorkArea(found)) => match found {
            Some(work_area) => (
                State::ResolvingVisibleFrame { handle, work_area },
                ActionView::QueryVisibleFrame { handle },
            ),
            None => prompt(Some(LastOperationStatus::MonitorInfoFailed)),
        },
        (
            State::ResolvingVisibleFrame { handle, work_area },
            EventView::VisibleFrame(found),
        ) => match found {
            Some(visible) => (
                State::ResolvingLogicalFrame { handle, work_area, visible },
                ActionView::QueryLogicalFrame { handle },
            ),
            None => prompt(Some(LastOperationStatus::ExtendedFrameQueryFailed)),
        },
        (
            State::ResolvingLogicalFrame { handle, work_area, visible },
            EventView::LogicalFrame(found),
        ) => match found {
            Some(logical) => {
                let target = Point {
                    x: centered_x(work_area@, visible@, logical@) as i32,
                    y: centered_y(work_area@, visible@, logical@) as i32,
                };
                (
                    State::Centering { handle, target },
                    ActionView::Place { handle, placement: position_only(target) },
                )
            },
            None => prompt(Some(LastOperationStatus::WindowRectQueryFailed)),
        },
        (State::Centering { .. }, EventView::Placed(moved)) => if moved {
            prompt(Some(LastOperationStatus::Success))
        } else {
            prompt(Some(LastOperationStatus::PlacementFailed))
        },
        _ => (State::Finished, ActionView::Exit),
    }
}

/// The machine as a partial function: the transition where the state
/// accepts the event, nothing elsewhere.
pub open spec fn step_model(state: State, event: EventView) -> Option<(State, ActionView)> {
    if accepts(state, event) {
        Some(transition(state, event))
    } else {
        None
    }
}

/// Leads back to the first prompt, which reports `status`.
fn to_prompt(status: LastOperationStatus) -> (next: (State, Action))
    ensures
        (next.0, next.1@) == prompt(Some(status)),
{
    (
        State::Idle { last: Some(status) },
        Action::ShowDialog { text: prompt_message(Some(status)), topmost: true },
    )
}

/// Goes on to the second prompt, which shows `title`.
fn to_confirmation(handle: WindowHandle, title: Vec<u16>) -> (next: (State, Action))
    ensures
        (next.0, next.1@) == confirm(handle, title@),
{
    (
        State::Confirming { handle },
        Action::ShowDialog { text: confirmation_message(title), topmost: false },
    )
}

/// Begins a run: the first prompt, with no status line.
pub fn start() -> (first: (State, Action))
    ensures
        (first.0, first.1@) == prompt(None),
{
    (State::Idle { last: None }, Action::ShowDialog { text: prompt_message(None), topmost: true })
}

/// Takes the outcome of the action that `state` waits for and answers with
/// the next state and the next action. Returns `None`, and decides nothing,
/// for an event that the state does not accept.
pub fn step(state: State, event: Event) -> (next: Option<(State, Action)>)
    ensures
        match next {
            Some((state_after, action)) => step_model(state, event@) == Some(
                (state_after, action@),
            ),
            None => step_model(state, event@) is None,
        },
{
    match state {
        State::Idle { last: _ } => match event {
            Event::Dialog(DialogAnswer::Proceed) => Some(
                (State::AwaitingClick, Action::PollPointer { delay_ms: 0 }),
            ),
            Event::Dialog(DialogAnswer::Cancel) => Some((State::Finished, Action::Exit)),
            _ => None,
        },
        State::AwaitingClick => match event {
            Event::Pointer { key_state } => if key_state == 0 {
                Some((State::AwaitingClick, Action::PollPointer { delay_ms: POLL_INTERVAL_MS }))
            } else {
                Some((State::AcquiringTarget, Action::QueryForeground))
            },
            _ => None,
        },
        State::AcquiringTarget => match event {
            Event::Foreground(Some(handle)) => Some(
                (State::ReadingTitleLength { handle }, Action::QueryTitleLength { handle }),
            ),
            Event::Foreground(None) => Some(
                to_prompt(LastOperationStatus::ForegroundResolutionFailed),
            ),
            _ => None,
        },
        State::ReadingTitleLength { handle } => match event {
            Event::TitleLength { length, last_error } => if length < 0 || length == i32::MAX {
                None
            } else {
                match plan_title_lookup(length, last_error) {
                    TitlePlan::UsePlaceholder => Some(to_confirmation(handle, placeholder_title())),
                    TitlePlan::Fetch { capacity } => Some(
                        (
                            State::FetchingTitle { handle, capacity },
                            Action::FetchTitle { handle, capacity },
                        ),
                    ),
                    TitlePlan::Fail => Some(to_prompt(LastOperationStatus::TitleLengthQueryFailed)),
                }
            },
            _ => None,
        },
        State::FetchingTitle { handle, capacity } => match event {
            Event::TitleText { copied, buffer } => if capacity < 0 || buffer.len()
                != capacity as usize {
                None
            } else {
                match title_from_buffer(buffer, copied) {
                    Ok(title) => Some(to_confirmation(handle, title)),
                    Err(status) => Some(to_prompt(status)),
                }
            },
            _ => None,
        },
        State::Confirming { handle } => match event {
            Event::Dialog(DialogAnswer::Proceed) => Some(
                (State::ResolvingWorkArea { handle }, Action::QueryWorkArea { handle }),
            ),
            Event::Dialog(DialogAnswer::Cancel) => Some(
                to_prompt(LastOperationStatus::CancelledByUser),
            ),
            _ => None,
        },
        State::ResolvingWorkArea { handle } => match event {
            Event::WorkArea(Some(work_area)) => Some(
                (
                    State::ResolvingVisibleFrame { handle, work_area },
                    Action::QueryVisibleFrame { handle },
                ),
            ),
            Event::WorkArea(None) => Some(to_prompt(LastOperationStatus::MonitorInfoFailed)),
            _ => None,
        },
        State::ResolvingVisibleFrame { handle, work_area } => match event {
            Event::VisibleFrame(Some(visible)) => Some(
                (
                    State::ResolvingLogicalFrame { handle, work_area, visible },
                    Action::QueryLogicalFrame { handle },
                ),
            ),
            Event::VisibleFrame(None) => Some(
                to_prompt(LastOperationStatus::ExtendedFrameQueryFailed),
            ),
            _ => None,
        },
        State::ResolvingLogicalFrame { handle, work_area, visible } => match event {
            Event::LogicalFrame(Some(logical)) => match checked_center_position(
                work_area,
                visible,
                logical,
            ) {
                Some(target) => Some(
                    (
                        State::Centering { handle, target },
                        Action::Place {
                            handle,
                            placement: Placement {
                                x: target.x,
                                y: target.y,
                                keep_size: true,
                                keep_z_order: true,
                                keep_activation: true,
                            },
                        },
                    ),
                ),
                None => None,
            },
            Event::LogicalFrame(None) => Some(to_prompt(LastOperationStatus::WindowRectQueryFailed)),
            _ => None,
        },
        State::Centering { handle: _, target: _ } => match event {
            Event::Placed(true) => Some(to_prompt(LastOperationStatus::Success)),
            Event::Placed(false) => Some(to_prompt(LastOperationStatus::PlacementFailed)),
            _ => None,
        },
        State::Finished => None,
    }
}

/// One window per pass. The window is captured once, from the outcome of the
/// foreground query. From then on the state keeps it, and every query and
/// the move name it, until the pass is over.
pub proof fn lemma_one_window_per_pass(state: State, event: EventView)
    requires
        accepts(state, event),
    ensures
        ({
            let (next, action) = transition(state, event);
            &&& action.handle() is Some ==> action.handle() == next.handle()
            &&& state.handle() is Some && next.handle() is Some ==> next.handle()
                == state.handle()
            &&& state.handle() is None && next.handle() is Some ==> state is AcquiringTarget
                && event == EventView::Foreground(next.handle())
        }),
{
}

/// The run ends on a cancelled first prompt and on nothing else. Cancelling
/// the second prompt, like every failure, only ends the pass.
pub proof fn lemma_only_first_prompt_ends_the_run(state: State, event: EventView)
    requires
        accepts(state, event),
    ensures
        ({
            let (next, action) = transition(state, event);
            &&& action is Exit <==> state is Idle && event == EventView::Dialog(
                DialogAnswer::Cancel,
            )
            &&& next is Finished <==> action is Exit
        }),
{
}

/// The status that the first prompt shows has no part in what follows it.
pub proof fn lemma_status_only_feeds_the_prompt(
    first: Option<LastOperationStatus>,
    second: Option<LastOperationStatus>,
    event: EventView,
)
    ensures
        step_model(State::Idle { last: first }, event) == step_model(
            State::Idle { last: second },
            event,
        ),
{
}

/// Nothing follows the final state.
pub proof fn lemma_finished_is_final(event: EventView)
    ensures
        step_model(State::Finished, event) is None,
{
}

/// A window is moved only once all three rectangles are known, and then to
/// the centered corner, with its size, its place in the stacking order and
/// its activation left alone. No failure on the way moves anything.
pub proof fn lemma_move_needs_complete_geometry(state: State, event: EventView)
    requires
        accepts(state, event),
    ensures
        match transition(state, event).1 {
            ActionView::Place { handle, placement } => {
                &&& state matches State::ResolvingLogicalFrame { handle: held, work_area, visible }
                &&& event matches EventView::LogicalFrame(Some(logical))
                &&& handle == held
                &&& placement.x == centered_x(work_area@, visible@, logical@)
                &&& placement.y == centered_y(work_area@, visible@, logical@)
                &&& placement.keep_size
                &&& placement.keep_z_order
                &&& placement.keep_activation
            },
            _ => !(state is ResolvingLogicalFrame && event matches EventView::LogicalFrame(Some(_))),
        },
{
}

/// Whenever a pass is over, the first prompt is shown again and reports how
/// the pass ended.
pub proof fn lemma_outcome_is_reported(state: State, event: EventView)
    requires
        accepts(state, event),
        transition(state, event).0 is Idle,
    ensures
        ({
            let (next, action) = transition(state, event);
            &&& next->last is Some
            &&& (next, action) == prompt(next->last)
        }),
{
}

/// A window without a title is confirmed under the placeholder: a length of
/// zero with no error leads to the second prompt, which shows the
/// placeholder and never an empty title.
pub proof fn lemma_untitled_window_shows_placeholder(handle: WindowHandle)
    ensures
        step_model(
            State::ReadingTitleLength { handle },
            EventView::TitleLength { length: 0, last_error: 0 },
        ) == Some(confirm(handle, placeholder_units())),
        placeholder_units().len() > 0,
{
    lemma_placeholder_is_not_empty();
}

/// A title is fetched into a buffer of one unit more than its reported
/// length, and the title that is then shown has one unit less than that
/// buffer.
pub proof fn lemma_title_fits_requested_buffer(
    handle: WindowHandle,
    length: i32,
    last_error: u32,
    copied: i32,
    buffer: Seq<u16>,
)
    requires
        length != 0,
        copied != 0,
        accepts(
            State::ReadingTitleLength { handle },
            EventView::TitleLength { length, last_error },
        ),
        accepts(
            transition(
                State::ReadingTitleLength { handle },
                EventView::TitleLength { length, last_error },
            ).0,
            EventView::TitleText { copied, buffer },
        ),
    ensures
        ({
            let (fetching, fetch) = transition(
                State::ReadingTitleLength { handle },
                EventView::TitleLength { length, last_error },
            );
            let shown = title_of_buffer(buffer);
            &&& fetch == ActionView::FetchTitle { handle, capacity: (length + 1) as i32 }
            &&& buffer.len() == length + 1
            &&& shown.len() == buffer.len() - 1
            &&& transition(fetching, EventView::TitleText { copied, buffer }) == confirm(
                handle,
                shown,
            )
        }),
{
    lemma_fetched_title_length(length, last_error, buffer);
}

} // verus!
