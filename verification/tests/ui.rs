//! Tests of the UI state machine, the signal channel, and the color
//! preview's palette cursor.

use arstyper::channel::SignalChannel;
use arstyper::color_preview::ColorPreview;
use arstyper::ui::{Screen, State, UiKey, UiRequest, UiState};

#[test]
fn fresh_ui_greets_and_runs() {
    let ui = UiState::new(1_000);
    assert_eq!(ui.state, State::Running);
    assert_eq!(ui.screen, Screen::TestScreen);
    assert_eq!(
        ui.status,
        "Welcome to arstyper! Press <F1> for help, or 'Ctrl+C' to exit."
    );
    assert_eq!(ui.clear_status_at, 6_000);
}

#[test]
fn status_expires_only_after_its_time() {
    let mut ui = UiState::new(1_000);
    ui.maybe_clear_status(5_999);
    assert_eq!(
        ui.status,
        "Welcome to arstyper! Press <F1> for help, or 'Ctrl+C' to exit."
    );
    ui.maybe_clear_status(6_000);
    assert_eq!(ui.status, " ");
    assert_eq!(ui.clear_status_at, i64::MAX);
}

#[test]
fn ctrl_c_stops_the_program() {
    let mut ui = UiState::new(0);
    ui.handle_global_key(UiKey::Ctrl('c'), 0);
    assert_eq!(ui.state, State::Stopped);
}

#[test]
fn help_key_opens_about_and_back_returns() {
    let mut ui = UiState::new(0);
    ui.handle_global_key(UiKey::Function(1), 100);
    assert_eq!(ui.screen, Screen::AboutScreen);
    assert_eq!(ui.last_screen, Screen::TestScreen);
    assert_eq!(ui.status, "Press <ESC> or 'q' to go back.");
    assert_eq!(ui.clear_status_at, 3_100);
    ui.handle_about_events(UiKey::Esc);
    assert_eq!(ui.screen, Screen::TestScreen);
    assert_eq!(ui.status, " ");
}

#[test]
fn about_ignores_other_keys() {
    let mut ui = UiState::new(0);
    ui.handle_global_key(UiKey::Function(1), 0);
    ui.handle_about_events(UiKey::Char('x'));
    assert_eq!(ui.screen, Screen::AboutScreen);
    ui.handle_about_events(UiKey::Char('q'));
    assert_eq!(ui.screen, Screen::TestScreen);
}

#[test]
fn requests_change_the_screen() {
    let mut ui = UiState::new(0);
    ui.apply_request(UiRequest::ChangeScreen(Screen::ResultsScreen));
    assert_eq!(ui.screen, Screen::ResultsScreen);
    assert_eq!(ui.state, State::Running);
}

#[test]
fn full_channel_drops_instead_of_blocking() {
    let mut ch: SignalChannel<u32> = SignalChannel::new(1);
    ch.try_send(7);
    ch.try_send(8);
    assert_eq!(ch.queued(), 1);
    assert_eq!(ch.try_recv(), Some(7));
    assert_eq!(ch.try_recv(), None);
}

#[test]
fn channel_is_first_in_first_out() {
    let mut ch: SignalChannel<u32> = SignalChannel::new(3);
    ch.try_send(1);
    ch.try_send(2);
    ch.try_send(3);
    assert_eq!(ch.try_recv(), Some(1));
    assert_eq!(ch.try_recv(), Some(2));
    assert_eq!(ch.try_recv(), Some(3));
    assert_eq!(ch.try_recv(), None);
}

#[test]
fn palette_selection_wraps_both_ways() {
    let mut p = ColorPreview::new(16);
    assert_eq!(p.cur_palette(), 0);
    assert_eq!(p.prev_palette(), 15);
    assert_eq!(p.next_palette(), 1);
    p.select_prev_palette();
    assert_eq!(p.cur_palette(), 15);
    p.select_next_palette();
    assert_eq!(p.cur_palette(), 0);
    for _ in 0..17 {
        p.select_next_palette();
    }
    assert_eq!(p.cur_palette(), 1);
}

#[test]
fn preview_keys_move_and_quit() {
    let mut p = ColorPreview::new(16);
    p.handle_key(UiKey::Right);
    assert_eq!(p.cur_palette(), 1);
    p.handle_key(UiKey::Left);
    assert_eq!(p.cur_palette(), 0);
    p.handle_key(UiKey::Char('x'));
    assert_eq!(p.state, State::Running);
    p.handle_key(UiKey::Char('q'));
    assert_eq!(p.state, State::Stopped);

    let mut p2 = ColorPreview::new(16);
    p2.handle_key(UiKey::Esc);
    assert_eq!(p2.state, State::Stopped);

    let mut p3 = ColorPreview::new(16);
    p3.handle_key(UiKey::Ctrl('c'));
    assert_eq!(p3.state, State::Stopped);
}
