//! The controller that owns the active view and replaces it when it is
//! done, and the decisions of the event loop that drives it at a fixed rate.

use vstd::prelude::*;
use crate::contracts::TuiPwSafeErrors;
use crate::keys::{InputEvent, KeyCode, KeyEvent};
use crate::layout::{centered_shares, inside, splittable, Direction, Rect};
use crate::list_content::{BrowserFrame, BrowserState, ContentList};
use crate::model::{EntryView, SafeModel};
use crate::password_input::{PasswordFrame, PasswordState, PasswordWidget, POPUP_HEIGHT};

verus! {

/// Length of one tick of the event loop, in milliseconds.
pub const TICK_RATE_MS: u64 = 17;

/// The time to wait for input: what is left of the tick, and nothing once
/// the tick is over.
pub open spec fn remaining(tick_rate: int, elapsed: int) -> int {
    if tick_rate - elapsed > 0 {
        tick_rate - elapsed
    } else {
        0
    }
}

/// The time to wait for input when `elapsed` of a tick of `tick_rate` has
/// passed, both in the same unit.
pub fn poll_timeout(tick_rate: u64, elapsed: u64) -> (timeout: u64)
    ensures
        timeout == remaining(tick_rate as int, elapsed as int),
        timeout <= tick_rate,
{
    if elapsed >= tick_rate {
        0
    } else {
        tick_rate - elapsed
    }
}

/// Tells whether the tick is over, so that the active view is to be
/// synchronised.
pub fn tick_due(tick_rate: u64, elapsed: u64) -> (due: bool)
    ensures
        due == (elapsed >= tick_rate),
{
    elapsed >= tick_rate
}

/// The clock of the event loop as plain values: the length of a tick and the
/// time at which the running tick began.
pub struct Clock {
    pub tick_rate: int,
    pub last_tick: int,
}

/// The time that has passed of the running tick at `now`.
pub open spec fn elapsed_at(clock: Clock, now: int) -> int {
    if now >= clock.last_tick {
        now - clock.last_tick
    } else {
        0
    }
}

/// The tick is over at `now`.
pub open spec fn due_at(clock: Clock, now: int) -> bool {
    elapsed_at(clock, now) >= clock.tick_rate
}

/// The clock after a new tick has begun at `now`.
pub open spec fn restarted(clock: Clock, now: int) -> Clock {
    Clock { last_tick: now, ..clock }
}

/// Once a frame and the events have taken as long as a tick or longer, the
/// loop looks for input without waiting, and the view is synchronised.
pub proof fn lemma_overrun_polls_without_waiting(clock: Clock, now: int)
    requires
        elapsed_at(clock, now) >= clock.tick_rate,
    ensures
        remaining(clock.tick_rate, elapsed_at(clock, now)) == 0,
        due_at(clock, now),
{
}

/// The wait for input never goes beyond the end of the tick, and never
/// beyond a whole tick.
pub proof fn lemma_poll_stays_within_tick(clock: Clock, now: int)
    requires
        clock.tick_rate >= 0,
    ensures
        0 <= remaining(clock.tick_rate, elapsed_at(clock, now)) <= clock.tick_rate,
        !due_at(clock, now) ==> elapsed_at(clock, now) + remaining(
            clock.tick_rate,
            elapsed_at(clock, now),
        ) == clock.tick_rate,
{
}

/// A tick is synchronised once: after the new tick has begun, the loop is
/// not due again before a whole tick has passed.
pub proof fn lemma_one_sync_per_tick(clock: Clock, now: int, later: int)
    requires
        clock.tick_rate > 0,
        due_at(clock, now),
        now <= later < now + clock.tick_rate,
    ensures
        !due_at(restarted(clock, now), later),
        remaining(clock.tick_rate, elapsed_at(restarted(clock, now), later)) > 0,
{
}

/// The clock of the event loop. Times are readings of one steady clock, in
/// one unit.
pub struct Scheduler {
    tick_rate: u64,
    last_tick: u64,
}

impl View for Scheduler {
    type V = Clock;

    closed spec fn view(&self) -> Clock {
        Clock { tick_rate: self.tick_rate as int, last_tick: self.last_tick as int }
    }
}

impl Scheduler {
    /// A clock with ticks of `tick_rate`, the first of which begins at
    /// `now`.
    pub fn new(tick_rate: u64, now: u64) -> (clock: Scheduler)
        ensures
            clock@ == (Clock { tick_rate: tick_rate as int, last_tick: now as int }),
    {
        Scheduler { tick_rate, last_tick: now }
    }

    /// The time that has passed of the running tick.
    pub fn elapsed(&self, now: u64) -> (elapsed: u64)
        ensures
            elapsed == elapsed_at(self@, now as int),
    {
        if now >= self.last_tick {
            now - self.last_tick
        } else {
            0
        }
    }

    /// The time to wait for input at `now`.
    pub fn poll_timeout(&self, now: u64) -> (timeout: u64)
        ensures
            timeout == remaining(self@.tick_rate, elapsed_at(self@, now as int)),
    {
        self::poll_timeout(self.tick_rate, self.elapsed(now))
    }

    /// Tells whether the tick is over at `now`.
    pub fn due(&self, now: u64) -> (due: bool)
        ensures
            due == due_at(self@, now as int),
    {
        tick_due(self.tick_rate, self.elapsed(now))
    }

    /// Begins a new tick at `now`.
    pub fn restart(&mut self, now: u64)
        ensures
            final(self)@ == restarted(old(self)@, now as int),
    {
        self.last_tick = now;
    }
}

/// The views, and the marker that no change of view is pending.
#[derive(Clone, Copy, Debug, PartialEq, Eq, Structural)]
pub enum ViewState {
    /// The passphrase prompt.
    PasswordDialog,
    /// The credential browser.
    ListStoreContent,
    /// No view is to be built: the active one stays.
    CurrentView,
}

/// The view that follows a view that is done.
pub open spec fn following(cur: ViewState) -> ViewState {
    match cur {
        ViewState::PasswordDialog => ViewState::ListStoreContent,
        _ => ViewState::CurrentView,
    }
}

/// The view that follows a view that is done.
pub fn next_view(cur: &ViewState) -> (next: ViewState)
    ensures
        next == following(*cur),
{
    match cur {
        ViewState::PasswordDialog => ViewState::ListStoreContent,
        _ => ViewState::CurrentView,
    }
}

/// The state of the active view as plain values.
pub enum WidgetState {
    Password(PasswordState),
    Browser(BrowserState),
}

/// The active view.
pub enum Widget {
    Password(PasswordWidget),
    Browser(ContentList),
}

/// The view is done and asks to be replaced.
pub open spec fn done(widget: WidgetState) -> bool {
    match widget {
        WidgetState::Password(prompt) => prompt.done,
        WidgetState::Browser(_) => false,
    }
}

/// The state of the view after a key press.
pub open spec fn widget_key_step(widget: WidgetState, key: KeyEvent) -> WidgetState {
    match widget {
        WidgetState::Password(prompt) => WidgetState::Password(
            crate::password_input::key_step(prompt, key),
        ),
        WidgetState::Browser(browser) => WidgetState::Browser(
            crate::list_content::key_step(browser, key),
        ),
    }
}

impl View for Widget {
    type V = WidgetState;

    open spec fn view(&self) -> WidgetState {
        match self {
            Widget::Password(prompt) => WidgetState::Password(prompt@),
            Widget::Browser(browser) => WidgetState::Browser(browser@),
        }
    }
}

impl Widget {
    /// The view is in a state that it can be in.
    pub open spec fn wf(&self) -> bool {
        match self {
            Widget::Password(_) => true,
            Widget::Browser(browser) => browser.wf(),
        }
    }

    /// Hands one key press to the view.
    pub fn capture_key(&mut self, key: KeyEvent)
        requires
            old(self).wf(),
        ensures
            final(self).wf(),
            final(self)@ == widget_key_step(old(self)@, key),
    {
        match self {
            Widget::Password(prompt) => prompt.capture_key(key),
            Widget::Browser(browser) => browser.capture_key(key),
        }
    }

    /// Tells whether the view is done and asks to be replaced.
    pub fn is_done(&self) -> (r: bool)
        ensures
            r == done(self@),
    {
        match self {
            Widget::Password(prompt) => prompt.is_done(),
            Widget::Browser(browser) => browser.is_done(),
        }
    }
}

/// What a view shows.
#[derive(Debug)]
pub enum Frame {
    Password(PasswordFrame),
    Browser(BrowserFrame),
}

/// The frame shows the view.
pub open spec fn frame_shows(frame: Frame, widget: WidgetState) -> bool {
    match (frame, widget) {
        (Frame::Password(f), WidgetState::Password(prompt)) => crate::password_input::shows(
            f,
            prompt,
        ),
        (Frame::Browser(f), WidgetState::Browser(browser)) => crate::list_content::shows(
            f,
            browser,
        ) && (f.detail is Some == browser.active_entry is Some),
        _ => false,
    }
}

/// No frame can be made of the view on this area, because the first
/// division of the screen cannot be made: from top to bottom for the box of
/// the prompt, from left to right for the panes of the browser.
pub open spec fn frame_refused(widget: WidgetState, area: Rect) -> bool {
    match widget {
        WidgetState::Password(_) => !splittable(
            Direction::Vertical,
            centered_shares(POPUP_HEIGHT),
            area,
        ),
        WidgetState::Browser(_) => !splittable(
            Direction::Horizontal,
            crate::list_content::pane_shares(),
            area,
        ),
    }
}

/// A frame is owed of the view on this area: the screen has room for the
/// view.
pub open spec fn frame_owed(widget: WidgetState, area: Rect) -> bool {
    match widget {
        WidgetState::Password(prompt) => crate::password_input::fits(prompt, area),
        WidgetState::Browser(browser) => crate::list_content::fits(browser, area),
    }
}

/// Every pane of the frame lies within the area.
pub open spec fn frame_inside(frame: Frame, area: Rect) -> bool {
    match frame {
        Frame::Password(f) => inside(f.input_area, area) && inside(f.help_area, area),
        Frame::Browser(f) => crate::list_content::frame_inside(f, area),
    }
}

/// What the event loop has to do for the active view after a tick.
#[derive(Debug, PartialEq, Eq)]
pub enum SyncAction {
    /// Nothing.
    Idle,
    /// Try to unlock the safe with this passphrase, and report how it went.
    Unlock(String),
    /// Put this text on the clipboard.
    Copy(String),
}

/// The state of the controller as plain values.
pub struct AppState {
    /// The user asked to leave.
    pub quit: bool,
    /// The active view.
    pub widget: WidgetState,
    /// The view that is to be built before the next frame.
    pub next_view: ViewState,
    /// The kind of the active view.
    pub current_view: ViewState,
}

/// The controller at start: the prompt is active, and a fresh prompt is to be
/// built before the first frame.
pub open spec fn initial_app() -> AppState {
    AppState {
        quit: false,
        widget: WidgetState::Password(crate::password_input::initial_state()),
        next_view: ViewState::PasswordDialog,
        current_view: ViewState::PasswordDialog,
    }
}

/// The controller is consistent: it knows the kind of the active view; only
/// the prompt can be waiting to be built; the browser is in a state that it
/// can be in.
pub open spec fn app_ok(state: AppState) -> bool {
    match state.widget {
        WidgetState::Password(_) => state.current_view == ViewState::PasswordDialog
            && state.next_view != ViewState::ListStoreContent,
        WidgetState::Browser(browser) => state.current_view == ViewState::ListStoreContent
            && state.next_view == ViewState::CurrentView && crate::list_content::browser_ok(
            browser,
        ),
    }
}

/// The view that is to be built before the next frame: the one that follows
/// the active view if that is done, else the one that was pending already.
pub open spec fn pending(state: AppState) -> ViewState {
    if done(state.widget) {
        following(state.current_view)
    } else {
        state.next_view
    }
}

/// `post` is the state in which a frame is drawn when the controller was in
/// `pre` before it: a pending view was built afresh from the records and
/// made the active one, and nothing is pending any more.
pub open spec fn frame_step(pre: AppState, records: Seq<EntryView>, post: AppState) -> bool {
    &&& post.quit == pre.quit
    &&& post.next_view == ViewState::CurrentView
    &&& match pending(pre) {
        ViewState::PasswordDialog => {
            &&& post.widget == WidgetState::Password(crate::password_input::initial_state())
            &&& post.current_view == ViewState::PasswordDialog
        },
        ViewState::ListStoreContent => {
            &&& post.widget is Browser
            &&& crate::list_content::opened(post.widget->Browser_0, records)
            &&& post.current_view == ViewState::ListStoreContent
        },
        ViewState::CurrentView => {
            &&& post.widget == pre.widget
            &&& post.current_view == pre.current_view
        },
    }
}

/// The state after an input event. Escape without a modifier asks to leave
/// and does not reach the view; every other key goes to the view; anything
/// else changes nothing.
pub open spec fn event_step(state: AppState, event: InputEvent) -> AppState {
    match event {
        InputEvent::Key(key) => if key.code == KeyCode::Esc && key.modifiers.is_none() {
            AppState { quit: true, ..state }
        } else {
            AppState { widget: widget_key_step(state.widget, key), ..state }
        },
        _ => state,
    }
}

/// The state after the active view was synchronised with the records at a
/// tick. The prompt waits for the outcome of its request and stays as it is;
/// the browser takes its step.
pub open spec fn sync_step(state: AppState, records: Seq<EntryView>) -> AppState {
    match state.widget {
        WidgetState::Password(_) => state,
        WidgetState::Browser(browser) => AppState {
            widget: WidgetState::Browser(crate::list_content::sync_step(browser, records)),
            ..state
        },
    }
}

/// What the event loop is asked to do after the active view was
/// synchronised: to try the passphrase that the prompt holds submitted, or to
/// put the value that the browser has staged on the clipboard.
pub open spec fn sync_request(state: AppState) -> Option<(bool, Seq<char>)> {
    match state.widget {
        WidgetState::Password(prompt) => if prompt.enter_done {
            Some((true, prompt.input))
        } else {
            None
        },
        WidgetState::Browser(browser) => match browser.staged {
            Some(text) => Some((false, text)),
            None => None,
        },
    }
}

/// The request that an action stands for: whether it asks to unlock, and
/// with which text.
pub open spec fn action_view(action: SyncAction) -> Option<(bool, Seq<char>)> {
    match action {
        SyncAction::Idle => None,
        SyncAction::Unlock(phrase) => Some((true, phrase@)),
        SyncAction::Copy(text) => Some((false, text@)),
    }
}

/// The state after an attempt to unlock the safe has ended.
pub open spec fn unlock_step(state: AppState, outcome: Result<(), TuiPwSafeErrors>) -> AppState {
    match state.widget {
        WidgetState::Password(prompt) => AppState {
            widget: WidgetState::Password(crate::password_input::unlock_step(prompt, outcome)),
            ..state
        },
        WidgetState::Browser(_) => state,
    }
}

/// The state after the clipboard has failed to take a text: the browser
/// shows the failure on its status line.
pub open spec fn copy_failed_step(state: AppState) -> AppState {
    match state.widget {
        WidgetState::Password(_) => state,
        WidgetState::Browser(browser) => AppState {
            widget: WidgetState::Browser(
                BrowserState {
                    status: TuiPwSafeErrors::ClipboardWriteFailure.message_spec(),
                    ..browser
                },
            ),
            ..state
        },
    }
}

/// The controller: it owns the one active view.
pub struct App {
    should_quit: bool,
    active_mv: Widget,
    next_view: ViewState,
    current_view: ViewState,
}

impl View for App {
    type V = AppState;

    closed spec fn view(&self) -> AppState {
        AppState {
            quit: self.should_quit,
            widget: self.active_mv@,
            next_view: self.next_view,
            current_view: self.current_view,
        }
    }
}

impl App {
    /// The controller is consistent.
    pub open spec fn wf(&self) -> bool {
        app_ok(self@)
    }

    /// The controller at start.
    pub fn new() -> (app: App)
        ensures
            app.wf(),
            app@ == initial_app(),
    {
        App {
            active_mv: Widget::Password(PasswordWidget::new()),
            should_quit: false,
            next_view: ViewState::PasswordDialog,
            current_view: ViewState::PasswordDialog,
        }
    }

    /// Tells whether the user asked to leave.
    pub fn should_quit(&self) -> (quit: bool)
        ensures
            quit == self@.quit,
    {
        self.should_quit
    }

    /// The active view.
    pub fn active(&self) -> (widget: &Widget)
        ensures
            widget@ == self@.widget,
    {
        &self.active_mv
    }

    /// Tells which kind of view is active.
    pub fn current_view(&self) -> (kind: ViewState)
        ensures
            kind == self@.current_view,
    {
        self.current_view
    }

    /// Prepares the next frame: where the active view is done, or a view is
    /// pending, that view is built afresh from the records and becomes the
    /// active one.
    pub fn begin_frame(&mut self, model: &SafeModel)
        requires
            old(self).wf(),
        ensures
            final(self).wf(),
            frame_step(old(self)@, model@, final(self)@),
    {
        if self.active_mv.is_done() {
            self.next_view = next_view(&self.current_view);
        }
        match self.next_view {
            ViewState::PasswordDialog => {
                self.active_mv = Widget::Password(PasswordWidget::new());
                self.current_view = ViewState::PasswordDialog;
                self.next_view = ViewState::CurrentView;
            },
            ViewState::ListStoreContent => {
                self.active_mv = Widget::Browser(ContentList::new(model));
                self.current_view = ViewState::ListStoreContent;
                self.next_view = ViewState::CurrentView;
            },
            ViewState::CurrentView => {},
        }
    }

    /// Prepares the next frame and says what it shows on a screen of the
    /// given area. The frame is that of the view which is active after the
    /// preparation, so that a view is shown in the frame in which it is
    /// built: when the prompt is done, this frame is the browser's, and it is
    /// there whenever the screen can be divided into the browser's panes.
    /// Every pane of the frame lies within the screen. A frame is there
    /// whenever the screen has room for the view, and there is none where the
    /// first division of the screen cannot be made.
    pub fn draw(&mut self, model: &SafeModel, area: Rect) -> (frame: Option<Frame>)
        requires
            old(self).wf(),
        ensures
            final(self).wf(),
            frame_step(old(self)@, model@, final(self)@),
            frame is Some ==> frame_shows(frame->0, final(self)@.widget) && frame_inside(
                frame->0,
                area,
            ),
            frame_refused(final(self)@.widget, area) ==> frame is None,
            frame_owed(final(self)@.widget, area) ==> frame is Some,
            pending(old(self)@) == ViewState::ListStoreContent && splittable(
                Direction::Horizontal,
                crate::list_content::pane_shares(),
                area,
            ) ==> frame is Some && frame->0 is Browser,
    {
        self.begin_frame(model);
        match &self.active_mv {
            Widget::Password(prompt) => match prompt.draw(area) {
                Some(f) => Some(Frame::Password(f)),
                None => None,
            },
            Widget::Browser(browser) => match browser.draw(area) {
                Some(f) => Some(Frame::Browser(f)),
                None => None,
            },
        }
    }

    /// Takes one input event.
    pub fn handle_event(&mut self, event: InputEvent)
        requires
            old(self).wf(),
        ensures
            final(self).wf(),
            final(self)@ == event_step(old(self)@, event),
    {
        match event {
            InputEvent::Key(key) => {
                if key.code == KeyCode::Esc && key.modifiers.held_none() {
                    self.should_quit = true;
                } else {
                    self.active_mv.capture_key(key);
                }
            },
            _ => {},
        }
    }

    /// Synchronises the active view with the records of the safe, once per
    /// tick, and says what is to be done for it.
    pub fn update_model(&mut self, model: &SafeModel) -> (action: SyncAction)
        requires
            old(self).wf(),
        ensures
            final(self).wf(),
            final(self)@ == sync_step(old(self)@, model@),
            action_view(action) == sync_request(old(self)@),
    {
        match &mut self.active_mv {
            Widget::Password(prompt) => match prompt.unlock_request() {
                Some(phrase) => SyncAction::Unlock(phrase),
                None => SyncAction::Idle,
            },
            Widget::Browser(browser) => match browser.update_model(model) {
                Some(text) => SyncAction::Copy(text),
                None => SyncAction::Idle,
            },
        }
    }

    /// Takes the outcome of the attempt to unlock the safe that
    /// `update_model` asked for.
    pub fn unlock_finished(&mut self, outcome: Result<(), TuiPwSafeErrors>)
        requires
            old(self).wf(),
        ensures
            final(self).wf(),
            final(self)@ == unlock_step(old(self)@, outcome),
    {
        match &mut self.active_mv {
            Widget::Password(prompt) => prompt.update_model(outcome),
            Widget::Browser(_) => {},
        }
    }

    /// Takes the news that the clipboard did not take the text that
    /// `update_model` handed out.
    pub fn copy_failed(&mut self)
        requires
            old(self).wf(),
        ensures
            final(self).wf(),
            final(self)@ == copy_failed_step(old(self)@),
    {
        match &mut self.active_mv {
            Widget::Password(_) => {},
            Widget::Browser(browser) => browser.report(&TuiPwSafeErrors::ClipboardWriteFailure),
        }
    }
}

/// The controller starts with the prompt, and its first frame shows a fresh
/// prompt.
pub proof fn lemma_first_frame_is_prompt(records: Seq<EntryView>, post: AppState)
    requires
        frame_step(initial_app(), records, post),
    ensures
        app_ok(initial_app()),
        post.widget == WidgetState::Password(crate::password_input::initial_state()),
        post.current_view == ViewState::PasswordDialog,
        app_ok(post),
{
}

/// Once the prompt is done, the frame that follows builds the browser from
/// the records and shows it: no frame shows the prompt again or nothing. The
/// browser is fresh and shows no record, so that its frame is owed on every
/// screen that can be divided into its panes.
pub proof fn lemma_done_prompt_opens_browser(
    pre: AppState,
    records: Seq<EntryView>,
    post: AppState,
    area: Rect,
)
    requires
        app_ok(pre),
        pre.widget is Password,
        done(pre.widget),
        frame_step(pre, records, post),
    ensures
        post.widget is Browser,
        crate::list_content::opened(post.widget->Browser_0, records),
        post.widget->Browser_0.active_entry is None,
        post.current_view == ViewState::ListStoreContent,
        post.next_view == ViewState::CurrentView,
        splittable(Direction::Horizontal, crate::list_content::pane_shares(), area)
            ==> frame_owed(post.widget, area),
        !frame_refused(post.widget, area) ==> frame_owed(post.widget, area),
{
}

/// While the prompt is not done and nothing is pending, a frame leaves the
/// prompt as it is.
pub proof fn lemma_open_prompt_stays(pre: AppState, records: Seq<EntryView>, post: AppState)
    requires
        app_ok(pre),
        pre.widget is Password,
        !done(pre.widget),
        pre.next_view == ViewState::CurrentView,
        frame_step(pre, records, post),
    ensures
        post == pre,
{
}

/// The browser is never done, so that no frame replaces it: it stays the
/// active view, untouched by the preparation of a frame.
pub proof fn lemma_browser_stays(pre: AppState, records: Seq<EntryView>, post: AppState)
    requires
        app_ok(pre),
        pre.widget is Browser,
        frame_step(pre, records, post),
    ensures
        !done(pre.widget),
        post == pre,
{
}

/// Events, ticks and the outcomes of requests never change the kind of the
/// active view, and never leave a view pending: only a frame replaces a view.
pub proof fn lemma_only_frames_replace_views(
    state: AppState,
    event: InputEvent,
    records: Seq<EntryView>,
    outcome: Result<(), TuiPwSafeErrors>,
)
    requires
        app_ok(state),
    ensures
        (event_step(state, event).widget is Browser) == (state.widget is Browser),
        (sync_step(state, records).widget is Browser) == (state.widget is Browser),
        (unlock_step(state, outcome).widget is Browser) == (state.widget is Browser),
        (copy_failed_step(state).widget is Browser) == (state.widget is Browser),
        event_step(state, event).next_view == state.next_view,
        sync_step(state, records).next_view == state.next_view,
        unlock_step(state, outcome).next_view == state.next_view,
        copy_failed_step(state).next_view == state.next_view,
{
}

/// A staged value is handed out once: the tick that hands it out clears the
/// stage, so that the next tick asks for nothing to be copied unless a value
/// was staged in between.
pub proof fn lemma_stage_forwarded_once(
    state: AppState,
    first: Seq<EntryView>,
    second: Seq<EntryView>,
)
    requires
        state.widget is Browser,
    ensures
        sync_request(sync_step(state, first)) is None,
        sync_request(sync_step(sync_step(state, first), second)) is None,
{
}

} // verus!
