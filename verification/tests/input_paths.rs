use lib::event::Event;
use lib::keys::{classify_key, echo_as_char, handle_key, screen_taken, KeyClass, KeyOutcome};
use lib::wake::{
    ledger_depth, ledger_offer, ledger_recv, serial_to_shell, status_tick, strip_pulse,
    ChannelLedger, SerialWake,
};
use lib::route::{
    app_peek_end, app_peek_new, app_peek_open, app_peek_take, click_outcome, pump_route, router_account, router_cursor,
    shell_action, shell_input_count, tab_outcome, ClickOutcome, PumpRoute, ShellAction, TabOutcome, WheelNote,
};
use lib::frame::CursorOp;

#[test]
fn key_classes() {
    assert_eq!(classify_key(b'\n'), KeyClass::Submit);
    assert_eq!(classify_key(b'\r'), KeyClass::Submit);
    assert_eq!(classify_key(8), KeyClass::Erase);
    assert_eq!(classify_key(0x7f), KeyClass::Erase);
    assert_eq!(classify_key(b' '), KeyClass::Insert);
    assert_eq!(classify_key(b'~'), KeyClass::Insert);
    assert_eq!(classify_key(9), KeyClass::Ignore);
    assert_eq!(classify_key(0x1b), KeyClass::Ignore);
    assert_eq!(classify_key(200), KeyClass::Ignore);
}

#[test]
fn line_editor_types_erases_and_submits() {
    let mut line: Vec<u8> = Vec::new();
    for &c in b"lsx" {
        assert_eq!(handle_key(c, &mut line), KeyOutcome::RedrawInput);
    }
    assert_eq!(handle_key(0x7f, &mut line), KeyOutcome::RedrawInput);
    assert_eq!(line, b"ls".to_vec());
    assert_eq!(handle_key(9, &mut line), KeyOutcome::Unchanged);
    assert_eq!(line, b"ls".to_vec());
    assert_eq!(handle_key(b'\r', &mut line), KeyOutcome::Dispatch(b"ls".to_vec()));
    assert!(line.is_empty());
    assert_eq!(handle_key(8, &mut line), KeyOutcome::RedrawInput);
    assert!(line.is_empty());
    assert_eq!(handle_key(b'\n', &mut line), KeyOutcome::Dispatch(Vec::new()));
}

#[test]
fn insert_then_backspace_restores_line() {
    let mut line = b"help".to_vec();
    handle_key(b'!', &mut line);
    handle_key(8, &mut line);
    assert_eq!(line, b"help".to_vec());
}

#[test]
fn screen_taken_only_for_dispatch() {
    assert!(screen_taken(&KeyOutcome::Dispatch(b"vug".to_vec()), true));
    assert!(!screen_taken(&KeyOutcome::Dispatch(b"ls".to_vec()), false));
    assert!(!screen_taken(&KeyOutcome::RedrawInput, true));
    assert!(!screen_taken(&KeyOutcome::Unchanged, true));
}

#[test]
fn key_echo_form() {
    assert!(echo_as_char(b'a'));
    assert!(echo_as_char(32));
    assert!(echo_as_char(126));
    assert!(!echo_as_char(127));
    assert!(!echo_as_char(9));
}

#[test]
fn serial_wake_decisions() {
    assert_eq!(serial_to_shell(false, false, 0, 0, false), (SerialWake::RingFull, false));
    assert_eq!(serial_to_shell(true, true, 0, 0, false), (SerialWake::AppOwnsScreen, false));
    assert_eq!(serial_to_shell(true, false, 48, 0, false), (SerialWake::NoHeadroom, false));
    assert_eq!(serial_to_shell(true, false, 47, 0, false), (SerialWake::PostWake, true));
    assert_eq!(serial_to_shell(true, false, 47, 0, true), (SerialWake::AlreadyPending, true));
    assert_eq!(serial_to_shell(true, false, 100, 90, false), (SerialWake::PostWake, true));
}

#[test]
fn serial_storm_posts_one_token() {
    let mut pending = false;
    let mut posts = 0;
    for _ in 0..500 {
        let (w, p) = serial_to_shell(true, false, 3, 1, pending);
        pending = p;
        if w == SerialWake::PostWake {
            posts += 1;
        }
    }
    assert_eq!(posts, 1);
    assert!(pending);
}

#[test]
fn heartbeats() {
    assert_eq!(strip_pulse(1000, 700, 250, false), (1000, true));
    assert_eq!(strip_pulse(1000, 700, 250, true), (1000, false));
    assert_eq!(strip_pulse(900, 700, 250, false), (700, false));
    assert_eq!(strip_pulse(5, u64::MAX - 300, 250, false), (5, true));
    assert_eq!(status_tick(true, true), (false, true));
    assert_eq!(status_tick(false, true), (true, false));
    assert_eq!(status_tick(false, false), (false, true));
}

#[test]
fn channel_ledger_reads_occupancy() {
    let l = ChannelLedger { sent: 0, recv: 0, folded: 0 };
    let l = ledger_offer(l, true);
    let l = ledger_offer(l, false);
    let l = ledger_offer(l, true);
    assert_eq!(ledger_depth(l), 2);
    let l = ledger_recv(l, false);
    let l = ledger_recv(l, true);
    assert_eq!(ledger_depth(l), 0);
    assert_eq!(l.folded, 1);
    assert_eq!(l, ChannelLedger { sent: 2, recv: 2, folded: 1 });
}

#[test]
fn pump_routes() {
    assert_eq!(pump_route(3, true), PumpRoute::UserRing);
    assert_eq!(pump_route(3, false), PumpRoute::UserRing);
    assert_eq!(pump_route(0, true), PumpRoute::LeaveForApp);
    assert_eq!(pump_route(0, false), PumpRoute::Shell);
}

#[test]
fn router_cursor_keepalive() {
    assert_eq!(router_cursor(Event::Mouse { x: 3, y: -4 }, false), CursorOp::MoveRel { dx: 3, dy: -4 });
    assert_eq!(router_cursor(Event::Mouse { x: 0, y: 0 }, false), CursorOp::Keep);
    assert_eq!(router_cursor(Event::MouseAbsolute { x: 10, y: 20 }, false), CursorOp::SetAbs { ax: 10, ay: 20 });
    assert_eq!(router_cursor(Event::Key(b'R'), false), CursorOp::Keep);
    assert_eq!(router_cursor(Event::Mouse { x: 3, y: -4 }, true), CursorOp::Keep);
}

#[test]
fn router_accounting() {
    assert_eq!(router_account(Event::Key(b'R'), true, 0), (1, WheelNote::NotWheel));
    assert_eq!(router_account(Event::Timer, false, 1), (1, WheelNote::NotWheel));
    assert_eq!(router_account(Event::Wheel(-1), true, 1), (2, WheelNote::Routed));
    assert_eq!(router_account(Event::Wheel(2), false, 2), (2, WheelNote::NoFocus));
}

#[test]
fn tab_and_click_outcomes() {
    assert_eq!(tab_outcome(false, 0, 5), TabOutcome::NotConsumed);
    assert_eq!(tab_outcome(true, 0, 0), TabOutcome::Swallowed);
    assert_eq!(tab_outcome(true, 0, 2), TabOutcome::FocusMoved);
    assert_eq!(click_outcome(true, 0, 2), ClickOutcome::Consumed);
    assert_eq!(click_outcome(false, 0, 2), ClickOutcome::RaisedWindow);
    assert_eq!(click_outcome(false, 0, 0), ClickOutcome::ToShell);
}

#[test]
fn shell_drain_actions() {
    assert_eq!(shell_action(Event::Key(b'a')), ShellAction::SendKey);
    assert_eq!(shell_action(Event::Mouse { x: 1, y: 2 }), ShellAction::SendPointer { dx: 1, dy: 2 });
    assert_eq!(shell_action(Event::MouseAbsolute { x: 7, y: 8 }), ShellAction::SendPointer { dx: 7, dy: 8 });
    assert_eq!(shell_action(Event::Button(1)), ShellAction::ClickRoute { mask: 1 });
    assert_eq!(shell_action(Event::Wheel(3)), ShellAction::WheelNoFocus);
    assert_eq!(shell_action(Event::Timer), ShellAction::Drop);
    assert_eq!(shell_action(Event::KeyUp(b'a')), ShellAction::Drop);
    assert_eq!(shell_action(Event::Nothing), ShellAction::Drop);
    assert_eq!(shell_action(Event::Unknown), ShellAction::Drop);
}

#[test]
fn app_peek_requeues_in_order() {
    let mut p = app_peek_new();
    let evs = [Event::Button(1), Event::Mouse { x: 1, y: 1 }, Event::KeyUp(9), Event::Key(b'q')];
    let tabs = [TabOutcome::NotConsumed, TabOutcome::NotConsumed, TabOutcome::Swallowed, TabOutcome::NotConsumed];
    for i in 0..4 {
        assert!(app_peek_open(&p));
        app_peek_take(&mut p, evs[i], tabs[i]);
    }
    assert_eq!(p.held, vec![Event::Button(1), Event::Mouse { x: 1, y: 1 }, Event::Key(b'q')]);
    let end = app_peek_end(&p);
    assert!(end.requeue);
    assert_eq!(end.discarded, 1);
    assert!(end.click_witness);
}

#[test]
fn app_peek_discards_on_focus_cycle() {
    let mut p = app_peek_new();
    app_peek_take(&mut p, Event::Button(1), TabOutcome::NotConsumed);
    app_peek_take(&mut p, Event::Key(9), TabOutcome::FocusMoved);
    assert!(!app_peek_open(&p));
    let end = app_peek_end(&p);
    assert!(!end.requeue);
    assert_eq!(end.discarded, 2);
    assert!(!end.click_witness);
}

#[test]
fn app_peek_stops_when_full() {
    let mut p = app_peek_new();
    for _ in 0..64 {
        app_peek_take(&mut p, Event::Key(b'x'), TabOutcome::NotConsumed);
    }
    assert!(!app_peek_open(&p));
    assert!(!app_peek_end(&p).click_witness);
}

#[test]
fn shell_input_counters() {
    assert_eq!(shell_input_count(4, 9, true), (5, 9));
    assert_eq!(shell_input_count(4, 9, false), (4, 10));
    assert_eq!(shell_input_count(u64::MAX, 0, true), (0, 0));
}
