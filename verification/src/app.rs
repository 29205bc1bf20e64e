//! The application state machine and the runtime loop's dispatch step.
//!
//! The runtime loop waits on three event sources at once — the render clock,
//! the keyboard, and the progress channel of the active countdown — and on
//! each iteration feeds the one event that became ready into [`App::step`].
//! The step mutates the navigation state and answers with the single
//! [`LoopAction`] the surrounding runtime must perform. The loop runs for as
//! long as [`App::is_running`] holds.

use vstd::prelude::*;

use crate::tabs::HomeTab;
use crate::tabs::SettingsTab;
use crate::tabs::StatsTab;
use crate::tabs::TimerTab;
use crate::timer_backend::DEFAULT_SESSION_SECS;
use crate::timer_backend::Timer;

verus! {

/// The application lifecycle. The loop runs until `Exit`; `Shutdown` is a
/// transient display state during which the shutdown indicator may be drawn.
#[derive(Clone, Copy, Debug, PartialEq, Eq, Structural)]
pub enum AppState {
    Startup,
    Running,
    Shutdown,
    Exit,
}

impl Default for AppState {
    fn default() -> (d: Self)
        ensures
            d == AppState::Startup,
    {
        AppState::Startup
    }
}

/// The four top-level views, in their navigation order.
#[derive(Clone, Copy, Debug, PartialEq, Eq, Structural)]
pub enum CurrentTab {
    Home,
    Timer,
    Stats,
    Settings,
}

impl CurrentTab {
    /// Position of this tab in the navigation order.
    pub open spec fn index_spec(self) -> int {
        match self {
            CurrentTab::Home => 0,
            CurrentTab::Timer => 1,
            CurrentTab::Stats => 2,
            CurrentTab::Settings => 3,
        }
    }

    /// The tab before this one; the first tab is its own predecessor.
    pub open spec fn prev_spec(self) -> CurrentTab {
        match self {
            CurrentTab::Home => CurrentTab::Home,
            CurrentTab::Timer => CurrentTab::Home,
            CurrentTab::Stats => CurrentTab::Timer,
            CurrentTab::Settings => CurrentTab::Stats,
        }
    }

    /// The tab after this one; the last tab is its own successor.
    pub open spec fn next_spec(self) -> CurrentTab {
        match self {
            CurrentTab::Home => CurrentTab::Timer,
            CurrentTab::Timer => CurrentTab::Stats,
            CurrentTab::Stats => CurrentTab::Settings,
            CurrentTab::Settings => CurrentTab::Settings,
        }
    }

    /// The header title of this tab; the parenthesised letter is the key
    /// that jumps to it.
    pub open spec fn title_spec(self) -> Seq<char> {
        match self {
            CurrentTab::Home => "(m)ain"@,
            CurrentTab::Timer => "(t)imer"@,
            CurrentTab::Stats => "st(a)ts"@,
            CurrentTab::Settings => "s(e)ttings"@,
        }
    }

    /// Move one tab back, stopping at the first tab.
    pub fn prev(self) -> (r: CurrentTab)
        ensures
            r == self.prev_spec(),
    {
        match self {
            CurrentTab::Home => CurrentTab::Home,
            CurrentTab::Timer => CurrentTab::Home,
            CurrentTab::Stats => CurrentTab::Timer,
            CurrentTab::Settings => CurrentTab::Stats,
        }
    }

    /// Move one tab forward, stopping at the last tab.
    pub fn next(self) -> (r: CurrentTab)
        ensures
            r == self.next_spec(),
    {
        match self {
            CurrentTab::Home => CurrentTab::Timer,
            CurrentTab::Timer => CurrentTab::Stats,
            CurrentTab::Stats => CurrentTab::Settings,
            CurrentTab::Settings => CurrentTab::Settings,
        }
    }

    /// Position of this tab in the navigation order, for the header
    /// highlight.
    pub fn as_index(self) -> (i: usize)
        ensures
            i == self.index_spec(),
    {
        match self {
            CurrentTab::Home => 0,
            CurrentTab::Timer => 1,
            CurrentTab::Stats => 2,
            CurrentTab::Settings => 3,
        }
    }

    /// The header title of this tab.
    pub fn title(self) -> (s: &'static str)
        ensures
            s@ == self.title_spec(),
    {
        match self {
            CurrentTab::Home => "(m)ain",
            CurrentTab::Timer => "(t)imer",
            CurrentTab::Stats => "st(a)ts",
            CurrentTab::Settings => "s(e)ttings",
        }
    }
}

impl Default for CurrentTab {
    fn default() -> (d: Self)
        ensures
            d == CurrentTab::Home,
    {
        CurrentTab::Home
    }
}

/// A decoded key press, as the runtime loop consumes it. The surrounding
/// program turns whatever its input backend delivers into one of these;
/// everything it cannot map, and every event that is not a key-down press,
/// becomes `Other` or is dropped before reaching the loop.
#[derive(Clone, Copy, Debug, PartialEq, Eq, Structural)]
pub enum KeyPress {
    /// A printable character key.
    Char(char),
    Left,
    Right,
    Up,
    Down,
    /// Any other key; the loop ignores it.
    Other,
}

/// One event the runtime loop multiplexes: the render clock fired, a key
/// was pressed, the active countdown reported progress, or its channel
/// closed because the countdown finished or was abandoned.
#[derive(Clone, Copy, Debug, PartialEq, Eq, Structural)]
pub enum AppEvent {
    Tick,
    Key(KeyPress),
    Progress(u16),
    ProgressClosed,
}

/// What the surrounding runtime must do after a step: draw a frame, create
/// a fresh countdown over the given duration together with a fresh progress
/// channel, or nothing.
#[derive(Clone, Copy, Debug, PartialEq, Eq, Structural)]
pub enum LoopAction {
    Redraw,
    StartTimer(u16),
    Continue,
}

/// The whole application state the runtime loop owns: lifecycle, selected
/// tab, each tab's cursor state, and the single active countdown, if any.
#[derive(Clone, Copy, Debug, PartialEq, Eq, Structural)]
pub struct App {
    pub state: AppState,
    pub current_tab: CurrentTab,
    pub home_tab: HomeTab,
    pub settings_tab: SettingsTab,
    pub timer_tab: TimerTab,
    pub stats_tab: StatsTab,
    /// The active countdown. `None` until the user first starts one; once
    /// set it is never replaced, so at most one countdown ever advances.
    pub timer: Option<Timer>,
}

impl App {
    /// The state a fresh application starts in.
    pub open spec fn default_spec() -> App {
        App {
            state: AppState::Startup,
            current_tab: CurrentTab::Home,
            home_tab: HomeTab::default_spec(),
            settings_tab: SettingsTab::default_spec(),
            timer_tab: TimerTab::default_spec(),
            stats_tab: StatsTab::default_spec(),
            timer: None,
        }
    }

    /// A fresh application.
    pub fn new() -> (a: App)
        ensures
            a == App::default_spec(),
    {
        App {
            state: AppState::Startup,
            current_tab: CurrentTab::Home,
            home_tab: HomeTab::new(),
            settings_tab: SettingsTab { row_index: 0 },
            timer_tab: TimerTab { progress: 0 },
            stats_tab: StatsTab { row_index: 0 },
            timer: None,
        }
    }

    /// The loop keeps iterating exactly while this holds.
    pub open spec fn is_running_spec(self) -> bool {
        self.state != AppState::Exit
    }

    /// Whether the loop keeps iterating: it exits exactly when the
    /// lifecycle has reached `Exit`.
    pub fn is_running(&self) -> (r: bool)
        ensures
            r == self.is_running_spec(),
    {
        self.state != AppState::Exit
    }

    /// The state after a request to move the cursor down within the active
    /// tab; tabs without a list ignore it.
    pub open spec fn cursor_next_spec(pre: App) -> App {
        match pre.current_tab {
            CurrentTab::Home => App { home_tab: pre.home_tab.next_row_spec(), ..pre },
            CurrentTab::Settings => App { settings_tab: pre.settings_tab.next_row_spec(), ..pre },
            CurrentTab::Stats => pre,
            CurrentTab::Timer => pre,
        }
    }

    /// The state after a request to move the cursor up within the active
    /// tab; tabs without a list ignore it.
    pub open spec fn cursor_prev_spec(pre: App) -> App {
        match pre.current_tab {
            CurrentTab::Home => App { home_tab: pre.home_tab.prev_row_spec(), ..pre },
            CurrentTab::Settings => App { settings_tab: pre.settings_tab.prev_row_spec(), ..pre },
            CurrentTab::Stats => pre,
            CurrentTab::Timer => pre,
        }
    }

    /// The effect of a timer-start request: switch to the timer tab if it
    /// is not already shown; then, only if no countdown is active, record a
    /// fresh one and ask the runtime to start it. A request while a
    /// countdown is active starts nothing.
    pub open spec fn start_timer_spec(pre: App) -> (App, LoopAction) {
        let switched = if pre.current_tab != CurrentTab::Timer {
            App { current_tab: CurrentTab::Timer, ..pre }
        } else {
            pre
        };
        if switched.timer is None {
            (
                App { timer: Some(Timer::initial_spec(DEFAULT_SESSION_SECS)), ..switched },
                LoopAction::StartTimer(DEFAULT_SESSION_SECS),
            )
        } else {
            (switched, LoopAction::Continue)
        }
    }

    /// The effect of one key press. Only the quit key touches the
    /// lifecycle; the navigation keys move between or within tabs; the
    /// start key is [`App::start_timer_spec`]; anything else is ignored.
    pub open spec fn handle_key_spec(pre: App, key: KeyPress) -> (App, LoopAction) {
        match key {
            KeyPress::Char(c) => if c == 'q' {
                (App { state: AppState::Exit, ..pre }, LoopAction::Continue)
            } else if c == 'l' {
                (App { current_tab: pre.current_tab.next_spec(), ..pre }, LoopAction::Continue)
            } else if c == 'h' {
                (App { current_tab: pre.current_tab.prev_spec(), ..pre }, LoopAction::Continue)
            } else if c == 'j' {
                (App::cursor_next_spec(pre), LoopAction::Continue)
            } else if c == 'k' {
                (App::cursor_prev_spec(pre), LoopAction::Continue)
            } else if c == 'm' {
                (App { current_tab: CurrentTab::Home, ..pre }, LoopAction::Continue)
            } else if c == 't' {
                (App { current_tab: CurrentTab::Timer, ..pre }, LoopAction::Continue)
            } else if c == 'a' {
                (App { current_tab: CurrentTab::Stats, ..pre }, LoopAction::Continue)
            } else if c == 'e' {
                (App { current_tab: CurrentTab::Settings, ..pre }, LoopAction::Continue)
            } else if c == 's' {
                App::start_timer_spec(pre)
            } else {
                (pre, LoopAction::Continue)
            },
            KeyPress::Right => (
                App { current_tab: pre.current_tab.next_spec(), ..pre },
                LoopAction::Continue,
            ),
            KeyPress::Left => (
                App { current_tab: pre.current_tab.prev_spec(), ..pre },
                LoopAction::Continue,
            ),
            KeyPress::Up => (App::cursor_next_spec(pre), LoopAction::Continue),
            KeyPress::Down => (App::cursor_prev_spec(pre), LoopAction::Continue),
            KeyPress::Other => (pre, LoopAction::Continue),
        }
    }

    /// One iteration of the runtime loop: the render clock asks for a
    /// frame, a key press is handled, a progress report becomes the latest
    /// value the timer tab shows, and a closed progress channel changes
    /// nothing — the countdown is simply over.
    pub open spec fn step_spec(pre: App, event: AppEvent) -> (App, LoopAction) {
        match event {
            AppEvent::Tick => (pre, LoopAction::Redraw),
            AppEvent::Key(key) => App::handle_key_spec(pre, key),
            AppEvent::Progress(p) => (
                App { timer_tab: TimerTab { progress: p }, ..pre },
                LoopAction::Continue,
            ),
            AppEvent::ProgressClosed => (pre, LoopAction::Continue),
        }
    }

    /// Select the tab after the current one, stopping at the last tab.
    pub fn next_tab(&mut self)
        ensures
            *final(self) == (App { current_tab: old(self).current_tab.next_spec(), ..*old(self) }),
    {
        self.current_tab = self.current_tab.next();
    }

    /// Select the tab before the current one, stopping at the first tab.
    pub fn prev_tab(&mut self)
        ensures
            *final(self) == (App { current_tab: old(self).current_tab.prev_spec(), ..*old(self) }),
    {
        self.current_tab = self.current_tab.prev();
    }

    /// Jump straight to the named tab.
    pub fn tab(&mut self, new_tab: CurrentTab)
        ensures
            *final(self) == (App { current_tab: new_tab, ..*old(self) }),
    {
        self.current_tab = new_tab;
    }

    /// Move the cursor down within the active tab.
    pub fn next(&mut self)
        ensures
            *final(self) == App::cursor_next_spec(*old(self)),
    {
        match self.current_tab {
            CurrentTab::Home => self.home_tab.next_row(),
            CurrentTab::Settings => self.settings_tab.next_row(),
            CurrentTab::Stats => {},
            CurrentTab::Timer => {},
        }
    }

    /// Move the cursor up within the active tab.
    pub fn prev(&mut self)
        ensures
            *final(self) == App::cursor_prev_spec(*old(self)),
    {
        match self.current_tab {
            CurrentTab::Home => self.home_tab.prev_row(),
            CurrentTab::Settings => self.settings_tab.prev_row(),
            CurrentTab::Stats => {},
            CurrentTab::Timer => {},
        }
    }

    /// End the loop: the lifecycle moves to `Exit` and never leaves it.
    pub fn quit(&mut self)
        ensures
            *final(self) == (App { state: AppState::Exit, ..*old(self) }),
    {
        self.state = AppState::Exit;
    }

    /// Handle a timer-start request, as [`App::start_timer_spec`] states.
    pub fn start_timer(&mut self) -> (action: LoopAction)
        ensures
            (*final(self), action) == App::start_timer_spec(*old(self)),
    {
        if self.current_tab != CurrentTab::Timer {
            self.tab(CurrentTab::Timer);
        }
        if self.timer.is_none() {
            self.timer = Some(Timer::new(DEFAULT_SESSION_SECS));
            LoopAction::StartTimer(DEFAULT_SESSION_SECS)
        } else {
            LoopAction::Continue
        }
    }

    /// Handle one key press, as [`App::handle_key_spec`] states.
    pub fn handle_key(&mut self, key: KeyPress) -> (action: LoopAction)
        ensures
            (*final(self), action) == App::handle_key_spec(*old(self), key),
    {
        match key {
            KeyPress::Char(c) => {
                if c == 'q' {
                    self.quit();
                    LoopAction::Continue
                } else if c == 'l' {
                    self.next_tab();
                    LoopAction::Continue
                } else if c == 'h' {
                    self.prev_tab();
                    LoopAction::Continue
                } else if c == 'j' {
                    self.next();
                    LoopAction::Continue
                } else if c == 'k' {
                    self.prev();
                    LoopAction::Continue
                } else if c == 'm' {
                    self.tab(CurrentTab::Home);
                    LoopAction::Continue
                } else if c == 't' {
                    self.tab(CurrentTab::Timer);
                    LoopAction::Continue
                } else if c == 'a' {
                    self.tab(CurrentTab::Stats);
                    LoopAction::Continue
                } else if c == 'e' {
                    self.tab(CurrentTab::Settings);
                    LoopAction::Continue
                } else if c == 's' {
                    self.start_timer()
                } else {
                    LoopAction::Continue
                }
            },
            KeyPress::Right => {
                self.next_tab();
                LoopAction::Continue
            },
            KeyPress::Left => {
                self.prev_tab();
                LoopAction::Continue
            },
            KeyPress::Up => {
                self.next();
                LoopAction::Continue
            },
            KeyPress::Down => {
                self.prev();
                LoopAction::Continue
            },
            KeyPress::Other => LoopAction::Continue,
        }
    }

    /// Perform one iteration of the runtime loop on the event that became
    /// ready, as [`App::step_spec`] states.
    pub fn step(&mut self, event: AppEvent) -> (action: LoopAction)
        ensures
            (*final(self), action) == App::step_spec(*old(self), event),
    {
        match event {
            AppEvent::Tick => LoopAction::Redraw,
            AppEvent::Key(key) => self.handle_key(key),
            AppEvent::Progress(p) => {
                self.timer_tab.progress = p;
                LoopAction::Continue
            },
            AppEvent::ProgressClosed => LoopAction::Continue,
        }
    }
}

impl Default for App {
    fn default() -> (a: Self)
        ensures
            a == App::default_spec(),
    {
        App::new()
    }
}

/// One next-or-previous tab move: forward means the next tab.
pub open spec fn move_tab(t: CurrentTab, forward: bool) -> CurrentTab {
    if forward {
        t.next_spec()
    } else {
        t.prev_spec()
    }
}

/// Applying a whole sequence of next/previous tab moves, in order.
pub open spec fn move_tabs(t: CurrentTab, moves: Seq<bool>) -> CurrentTab
    decreases moves.len(),
{
    if moves.len() == 0 {
        t
    } else {
        move_tabs(move_tab(t, moves[0]), moves.subrange(1, moves.len() as int))
    }
}

/// Law: under any sequence of next/previous tab moves, the selected tab's
/// index stays between 0 and 3 — saturating navigation never overflows or
/// underflows the tab list.
pub proof fn lemma_move_tabs_in_range(t: CurrentTab, moves: Seq<bool>)
    ensures
        0 <= move_tabs(t, moves).index_spec() <= 3,
    decreases moves.len(),
{
    if moves.len() > 0 {
        lemma_move_tabs_in_range(move_tab(t, moves[0]), moves.subrange(1, moves.len() as int));
    }
}

/// Law: the quit key moves the lifecycle to `Exit` from any state, and the
/// loop condition fails on the very next iteration.
pub proof fn lemma_quit_exits(pre: App)
    ensures
        App::step_spec(pre, AppEvent::Key(KeyPress::Char('q'))).0.state == AppState::Exit,
        !App::step_spec(pre, AppEvent::Key(KeyPress::Char('q'))).0.is_running_spec(),
{
}

/// Law: a closed progress channel is not an error. The step leaves the
/// whole state unchanged, and a later render tick still asks for a frame,
/// so the loop keeps operating.
pub proof fn lemma_channel_closed_is_harmless(pre: App)
    ensures
        App::step_spec(pre, AppEvent::ProgressClosed) == (pre, LoopAction::Continue),
        App::step_spec(App::step_spec(pre, AppEvent::ProgressClosed).0, AppEvent::Tick).1
            == LoopAction::Redraw,
{
}

/// Law: while a countdown is active, no key press replaces it or starts a
/// second one — the progress stream can never interleave two sources.
pub proof fn lemma_single_active_timer(pre: App, key: KeyPress)
    requires
        pre.timer is Some,
    ensures
        App::handle_key_spec(pre, key).0.timer == pre.timer,
        !(App::handle_key_spec(pre, key).1 is StartTimer),
{
}

} // verus!
