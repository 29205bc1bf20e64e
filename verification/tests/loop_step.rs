use pomo_tui::app::{App, AppEvent, AppState, CurrentTab, KeyPress, LoopAction};
use pomo_tui::shutdown::shutdown;
use pomo_tui::tabs::Button;
use pomo_tui::timer_backend::Timer;

#[test]
fn fresh_app_starts_on_home_with_no_timer() {
    let app = App::new();
    assert_eq!(app.state, AppState::Startup);
    assert_eq!(app.current_tab, CurrentTab::Home);
    assert_eq!(app.timer, None);
    assert_eq!(app.timer_tab.progress, 0);
    assert!(app.is_running());
    assert_eq!(App::default(), app);
}

#[test]
fn quit_exits_from_every_tab() {
    for tab in [
        CurrentTab::Home,
        CurrentTab::Timer,
        CurrentTab::Stats,
        CurrentTab::Settings,
    ] {
        let mut app = App::new();
        app.tab(tab);
        let action = app.step(AppEvent::Key(KeyPress::Char('q')));
        assert_eq!(action, LoopAction::Continue);
        assert_eq!(app.state, AppState::Exit);
        assert!(!app.is_running());
    }
}

#[test]
fn render_tick_only_asks_for_a_frame() {
    let mut app = App::new();
    let before = app;
    let action = app.step(AppEvent::Tick);
    assert_eq!(action, LoopAction::Redraw);
    assert_eq!(app, before);
}

#[test]
fn progress_report_becomes_the_latest_displayed_value() {
    let mut app = App::new();
    app.step(AppEvent::Progress(40));
    assert_eq!(app.timer_tab.progress, 40);
    app.step(AppEvent::Progress(60));
    assert_eq!(app.timer_tab.progress, 60);
}

#[test]
fn closed_channel_leaves_the_loop_operating() {
    let mut app = App::new();
    app.step(AppEvent::Progress(100));
    let before = app;
    let action = app.step(AppEvent::ProgressClosed);
    assert_eq!(action, LoopAction::Continue);
    assert_eq!(app, before);
    assert!(app.is_running());
    assert_eq!(app.step(AppEvent::Tick), LoopAction::Redraw);
    assert_eq!(app.step(AppEvent::Tick), LoopAction::Redraw);
}

#[test]
fn start_key_switches_to_the_timer_tab_and_starts_once() {
    let mut app = App::new();
    let action = app.step(AppEvent::Key(KeyPress::Char('s')));
    assert_eq!(app.current_tab, CurrentTab::Timer);
    assert_eq!(action, LoopAction::StartTimer(1500));
    assert_eq!(app.timer, Some(Timer::new(1500)));
}

#[test]
fn starting_while_a_timer_is_active_is_a_no_op() {
    let mut app = App::new();
    app.step(AppEvent::Key(KeyPress::Char('s')));
    let timer_before = app.timer;
    let action = app.step(AppEvent::Key(KeyPress::Char('s')));
    assert_eq!(action, LoopAction::Continue);
    assert_eq!(app.timer, timer_before);
    let action_from_elsewhere = {
        app.tab(CurrentTab::Home);
        app.step(AppEvent::Key(KeyPress::Char('s')))
    };
    assert_eq!(action_from_elsewhere, LoopAction::Continue);
    assert_eq!(app.timer, timer_before);
    assert_eq!(app.current_tab, CurrentTab::Timer);
}

#[test]
fn jump_keys_select_their_tabs() {
    let mut app = App::new();
    app.step(AppEvent::Key(KeyPress::Char('t')));
    assert_eq!(app.current_tab, CurrentTab::Timer);
    app.step(AppEvent::Key(KeyPress::Char('a')));
    assert_eq!(app.current_tab, CurrentTab::Stats);
    app.step(AppEvent::Key(KeyPress::Char('e')));
    assert_eq!(app.current_tab, CurrentTab::Settings);
    app.step(AppEvent::Key(KeyPress::Char('m')));
    assert_eq!(app.current_tab, CurrentTab::Home);
}

#[test]
fn arrow_and_vi_keys_move_between_tabs() {
    let mut app = App::new();
    app.step(AppEvent::Key(KeyPress::Right));
    assert_eq!(app.current_tab, CurrentTab::Timer);
    app.step(AppEvent::Key(KeyPress::Char('l')));
    assert_eq!(app.current_tab, CurrentTab::Stats);
    app.step(AppEvent::Key(KeyPress::Left));
    assert_eq!(app.current_tab, CurrentTab::Timer);
    app.step(AppEvent::Key(KeyPress::Char('h')));
    assert_eq!(app.current_tab, CurrentTab::Home);
    app.step(AppEvent::Key(KeyPress::Left));
    assert_eq!(app.current_tab, CurrentTab::Home);
}

#[test]
fn cursor_keys_move_within_the_active_tab_only() {
    let mut app = App::new();
    app.step(AppEvent::Key(KeyPress::Char('j')));
    assert_eq!(app.home_tab.currently_selected_list_item, Button::Dummy);
    app.step(AppEvent::Key(KeyPress::Char('k')));
    assert_eq!(app.home_tab.currently_selected_list_item, Button::StartStop);
    app.tab(CurrentTab::Settings);
    app.step(AppEvent::Key(KeyPress::Up));
    assert_eq!(app.settings_tab.row_index, 1);
    app.step(AppEvent::Key(KeyPress::Down));
    assert_eq!(app.settings_tab.row_index, 0);
    app.tab(CurrentTab::Timer);
    let before = app;
    app.step(AppEvent::Key(KeyPress::Up));
    assert_eq!(app, before);
}

#[test]
fn unmapped_keys_are_ignored() {
    let mut app = App::new();
    let before = app;
    assert_eq!(app.step(AppEvent::Key(KeyPress::Char('x'))), LoopAction::Continue);
    assert_eq!(app, before);
    assert_eq!(app.step(AppEvent::Key(KeyPress::Other)), LoopAction::Continue);
    assert_eq!(app, before);
}

#[test]
fn quit_is_case_sensitive() {
    let mut app = App::new();
    app.step(AppEvent::Key(KeyPress::Char('Q')));
    assert!(app.is_running());
    app.step(AppEvent::Key(KeyPress::Char('q')));
    assert!(!app.is_running());
}

#[test]
fn shutdown_indicator_waits_for_the_frame_delay() {
    assert!(!shutdown(0));
    assert!(!shutdown(119));
    assert!(!shutdown(120));
    assert!(shutdown(121));
    assert!(shutdown(10_000));
}
