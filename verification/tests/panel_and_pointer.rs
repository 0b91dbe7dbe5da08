use lib::click::{click1_dispatch, click1_hit_test, press_edges, Click1Hit, ClickPlan};
use lib::event::Event;
use lib::fold::{coalesce_pointer, fold_leading_motion, fold_next};
use lib::forward::{
    drain_answer, drain_decide, drain_open, heartbeat, retire_answer, retire_next, DrainStep, Heartbeat, Owed,
};
use lib::frame::{
    cursor_hide_due, frame_plan, mint_shell_at_start, pi_shell_mint_due, render_event, serial_bytes_flags, shell_reopen,
    strip_and_present, x86_key_target, CursorOp, FramePlan, KeyTarget, PassFlags, ShellReopen,
};
use lib::geometry::{clamp_usize, demo_fps, mean_per_pass, per_second, shell_origin, shell_surface, stage_cover, ShellSurface};
use lib::sat::{sat_add_i32, sat_mul_u64, sat_mul_usize, sat_sub_i32};

#[test]
fn click_names() {
    assert_eq!(Click1Hit::Status.name(), "status");
    assert_eq!(Click1Hit::Console.name(), "console");
}

#[test]
fn hit_test_splits_panel() {
    assert_eq!(click1_hit_test(0, 600, 16), Some(Click1Hit::Console));
    assert_eq!(click1_hit_test(583, 600, 16), Some(Click1Hit::Console));
    assert_eq!(click1_hit_test(584, 600, 16), Some(Click1Hit::Status));
    assert_eq!(click1_hit_test(599, 600, 16), Some(Click1Hit::Status));
    assert_eq!(click1_hit_test(600, 600, 16), None);
    assert_eq!(click1_hit_test(-1, 600, 16), None);
    assert_eq!(click1_hit_test(5, 10, 16), Some(Click1Hit::Status));
}

#[test]
fn press_edges_and_dispatch() {
    assert_eq!(press_edges(0b011, 0b001), 0b010);
    assert_eq!(press_edges(0b001, 0b001), 0);
    assert_eq!(press_edges(0, 0b001), 0);
    assert_eq!(click1_dispatch(1, 1, 10, 600, 16, true), ClickPlan::NoPress);
    assert_eq!(click1_dispatch(1, 0, 10, 600, 16, true), ClickPlan::Press { hit: Some(Click1Hit::Console), activate_console: true });
    assert_eq!(click1_dispatch(1, 0, 10, 600, 16, false), ClickPlan::Press { hit: Some(Click1Hit::Console), activate_console: false });
    assert_eq!(click1_dispatch(2, 0, 590, 600, 16, true), ClickPlan::Press { hit: Some(Click1Hit::Status), activate_console: false });
    assert_eq!(click1_dispatch(2, 0, 700, 600, 16, true), ClickPlan::Press { hit: None, activate_console: false });
}

#[test]
fn forward_holds_events_behind_motion() {
    let mut s = Owed { motion: None, event: None };
    // first motion is refused: it becomes owed
    assert_eq!(drain_decide(&mut s, Event::Mouse { x: 2, y: 1 }), DrainStep::Offer(Event::Mouse { x: 2, y: 1 }));
    drain_answer(&mut s, Event::Mouse { x: 2, y: 1 }, false);
    assert_eq!(s.motion, Some((2, 1)));
    // more motion folds
    assert_eq!(drain_decide(&mut s, Event::Mouse { x: 3, y: -5 }), DrainStep::Fold);
    assert_eq!(s.motion, Some((5, -4)));
    // the heartbeat is shed
    assert_eq!(drain_decide(&mut s, Event::Timer), DrainStep::Shed);
    // a key is held behind the motion and the drain closes
    assert_eq!(drain_decide(&mut s, Event::Key(b'k')), DrainStep::Hold);
    assert_eq!(s.event, Some(Event::Key(b'k')));
    assert!(!drain_open(&s));
    // the heartbeat is shed while anything is owed
    assert_eq!(heartbeat(&s, 1000, 700, false), (1000, Heartbeat::Shed));
    // retiring: motion first, then the key
    assert_eq!(retire_next(&s), Some(Event::Mouse { x: 5, y: -4 }));
    retire_answer(&mut s, false);
    assert_eq!(retire_next(&s), Some(Event::Mouse { x: 5, y: -4 }));
    retire_answer(&mut s, true);
    assert_eq!(retire_next(&s), Some(Event::Key(b'k')));
    retire_answer(&mut s, true);
    assert_eq!(retire_next(&s), None);
    assert!(drain_open(&s));
    assert_eq!(heartbeat(&s, 1000, 700, false), (1000, Heartbeat::Offer));
    assert_eq!(heartbeat(&s, 800, 700, false), (700, Heartbeat::NotDue));
    assert_eq!(heartbeat(&s, 5000, 700, true), (5000, Heartbeat::NotDue));
}

#[test]
fn forward_refused_key_is_held() {
    let mut s = Owed { motion: None, event: None };
    assert_eq!(drain_decide(&mut s, Event::Button(1)), DrainStep::Offer(Event::Button(1)));
    drain_answer(&mut s, Event::Button(1), false);
    assert_eq!(s.event, Some(Event::Button(1)));
    assert!(!drain_open(&s));
    let mut t = Owed { motion: Some((i32::MAX, 0)), event: None };
    assert_eq!(drain_decide(&mut t, Event::Mouse { x: 10, y: 0 }), DrainStep::Fold);
    assert_eq!(t.motion, Some((i32::MAX, 0)));
}

#[test]
fn render_fold() {
    assert_eq!(fold_next((1, 1), Event::Mouse { x: 2, y: 3 }), Some((3, 4)));
    assert_eq!(fold_next((1, 1), Event::Key(b'a')), None);
    let q = vec![Event::Mouse { x: 1, y: 2 }, Event::Mouse { x: -5, y: 0 }, Event::Key(b'z'), Event::Mouse { x: 9, y: 9 }];
    assert_eq!(fold_leading_motion(10, 10, &q), (6, 12, 2));
    assert_eq!(fold_leading_motion(10, 10, &vec![]), (10, 10, 0));
    assert_eq!(fold_leading_motion(i32::MAX - 1, 0, &vec![Event::Mouse { x: 5, y: 0 }]), (i32::MAX, 0, 1));
}

#[test]
fn console_pointer_coalescing() {
    let evs = vec![
        Event::Mouse { x: 1, y: 2 },
        Event::Key(b'a'),
        Event::MouseAbsolute { x: 100, y: 50 },
        Event::Mouse { x: -4, y: 1 },
        Event::MouseAbsolute { x: 7, y: 8 },
    ];
    assert_eq!(coalesce_pointer(&evs), (Some((-3, 3)), Some((7, 8))));
    assert_eq!(coalesce_pointer(&vec![Event::Key(b'a')]), (None, None));
    assert_eq!(coalesce_pointer(&vec![Event::Mouse { x: 0, y: 0 }]), (Some((0, 0)), None));
}

#[test]
fn render_events() {
    let f = PassFlags { dirty: false, strip_dirty: false, strip_tick: false, shell_dirty: false };
    let r = render_event(Event::Key(b'a'), f, false, None);
    assert_eq!(r.flags, PassFlags { dirty: true, strip_dirty: true, strip_tick: false, shell_dirty: false });
    assert_eq!(r.key, Some((b'a', KeyTarget::Panel)));
    let r = render_event(Event::Key(b'a'), f, true, None);
    assert_eq!(r.flags, PassFlags { dirty: false, strip_dirty: false, strip_tick: false, shell_dirty: true });
    assert_eq!(r.key, Some((b'a', KeyTarget::ShellWindow)));
    let r = render_event(Event::Mouse { x: 0, y: 0 }, f, false, None);
    assert_eq!(r.cursor, CursorOp::Keep);
    let r = render_event(Event::Mouse { x: 1, y: 0 }, f, false, None);
    assert_eq!(r.cursor, CursorOp::MoveRel { dx: 1, dy: 0 });
    assert_eq!(r.flags, f);
    let r = render_event(Event::MouseAbsolute { x: 5, y: 6 }, f, false, Some((5, 6)));
    assert_eq!(r.cursor, CursorOp::Keep);
    let r = render_event(Event::MouseAbsolute { x: 5, y: 7 }, f, false, Some((5, 6)));
    assert_eq!(r.cursor, CursorOp::SetAbs { ax: 5, ay: 7 });
    assert_eq!(r.last_abs, Some((5, 7)));
    let r = render_event(Event::Button(1), f, true, None);
    assert_eq!(r.button, Some(1));
    assert!(r.flags.dirty && r.flags.strip_dirty);
    let r = render_event(Event::Timer, f, false, None);
    assert!(r.flags.strip_tick && !r.flags.dirty);
    let r = render_event(Event::Wheel(1), f, false, Some((1, 1)));
    assert_eq!(r.flags, f);
    assert_eq!(r.last_abs, Some((1, 1)));
}

#[test]
fn pass_tail() {
    let f = PassFlags { dirty: false, strip_dirty: false, strip_tick: false, shell_dirty: false };
    assert_eq!(serial_bytes_flags(f, false, 0), f);
    assert_eq!(serial_bytes_flags(f, false, 3), PassFlags { dirty: true, strip_dirty: true, ..f });
    assert_eq!(serial_bytes_flags(f, true, 3), PassFlags { shell_dirty: true, ..f });
    assert_eq!(strip_and_present(PassFlags { strip_dirty: true, ..f }, false), (true, false, true));
    assert_eq!(strip_and_present(PassFlags { strip_tick: true, ..f }, false), (false, true, false));
    assert_eq!(strip_and_present(PassFlags { strip_tick: true, ..f }, true), (false, true, true));
    assert_eq!(strip_and_present(PassFlags { dirty: true, ..f }, true), (false, false, true));
    assert!(cursor_hide_due(true, false));
    assert!(!cursor_hide_due(false, false));
    assert!(!cursor_hide_due(true, true));
}

#[test]
fn console_frames() {
    assert_eq!(frame_plan(false, false, true, true), FramePlan { move_sprite: false, redraw_sprite: false, erase_sprite: false, render: false });
    assert_eq!(frame_plan(true, false, true, true), FramePlan { move_sprite: false, redraw_sprite: true, erase_sprite: false, render: true });
    assert_eq!(frame_plan(true, true, true, true), FramePlan { move_sprite: true, redraw_sprite: false, erase_sprite: false, render: true });
    assert_eq!(frame_plan(false, false, false, true), FramePlan { move_sprite: false, redraw_sprite: false, erase_sprite: true, render: true });
}

#[test]
fn shell_window_plans() {
    assert_eq!(x86_key_target(true, true, true), None);
    assert_eq!(x86_key_target(false, true, true), Some(KeyTarget::ShellWindow));
    assert_eq!(x86_key_target(false, true, false), None);
    assert_eq!(x86_key_target(false, false, true), Some(KeyTarget::Panel));
    assert!(mint_shell_at_start(true, false));
    assert!(!mint_shell_at_start(true, true));
    assert!(!mint_shell_at_start(false, false));
    assert_eq!(shell_reopen(true, true), ShellReopen::RaiseExisting);
    assert_eq!(shell_reopen(true, false), ShellReopen::MintNew);
    assert_eq!(shell_reopen(false, true), ShellReopen::MintNew);
    assert!(pi_shell_mint_due(true, false, false, true));
    assert!(!pi_shell_mint_due(true, false, false, false));
    assert!(!pi_shell_mint_due(true, true, false, true));
    assert!(!pi_shell_mint_due(true, false, true, true));
}

#[test]
fn shell_window_geometry() {
    assert_eq!(shell_surface(1920, 1200, 40), Some(ShellSurface { width: 960, height: 580, stride: 3840, len: 2_227_200 }));
    assert_eq!(shell_surface(400, 300, 40), Some(ShellSurface { width: 320, height: 200, stride: 1280, len: 256_000 }));
    assert_eq!(shell_surface(0, 0, 40), Some(ShellSurface { width: 320, height: 200, stride: 1280, len: 256_000 }));
    assert_eq!(shell_origin(1920, 1200, 40, 1000, 620), (460, 40 + 405));
    assert_eq!(shell_origin(800, 300, 40, 1000, 620), (0, 40));
    assert_eq!(clamp_usize(5, 1, 3), 3);
    assert_eq!(clamp_usize(0, 1, 3), 1);
    assert_eq!(clamp_usize(2, 1, 3), 2);
}

#[test]
fn coverage_and_rates() {
    assert_eq!(stage_cover(1920 * 1200 * 4, 1920, 1200, 4), 100);
    assert_eq!(stage_cover(1920 * 1200, 1920, 1200, 4), 25);
    assert_eq!(stage_cover(5, 0, 1200, 4), 0);
    assert_eq!(stage_cover(usize::MAX, usize::MAX, 2, 1), 1);
    assert_eq!(per_second(330, 5000), 66);
    assert_eq!(per_second(7, 0), 7000);
    assert_eq!(per_second(u64::MAX, 1000), u64::MAX / 1000);
    assert_eq!(mean_per_pass(1000, 0), 1000);
    assert_eq!(mean_per_pass(1000, 3), 333);
    assert_eq!(demo_fps(90, 1000, 4000), (3000, 30, 0));
    assert_eq!(demo_fps(90, 1000, 8000), (7000, 12, 857));
    assert_eq!(demo_fps(90, 5000, 5000), (1, 90000, 0));
    assert_eq!(demo_fps(90, 5000, 4000), (1, 90000, 0));
}

#[test]
fn saturating_helpers() {
    assert_eq!(sat_add_i32(i32::MAX, 1), i32::MAX);
    assert_eq!(sat_add_i32(i32::MIN, -1), i32::MIN);
    assert_eq!(sat_add_i32(2, -5), -3);
    assert_eq!(sat_sub_i32(i32::MIN, 1), i32::MIN);
    assert_eq!(sat_sub_i32(600, 16), 584);
    assert_eq!(sat_mul_u64(u64::MAX, 2), u64::MAX);
    assert_eq!(sat_mul_u64(6, 7), 42);
    assert_eq!(sat_mul_usize(usize::MAX, 3), usize::MAX);
    assert_eq!(sat_mul_usize(3, 3), 9);
}

#[test]
fn relative_reports_are_mouse() {
    assert!(Event::Mouse { x: 0, y: 0 }.is_mouse());
    assert!(Event::Mouse { x: -3, y: 7 }.is_mouse());
    assert!(!Event::MouseAbsolute { x: 3, y: 7 }.is_mouse());
    assert!(!Event::Key(b'a').is_mouse());
    assert!(!Event::Timer.is_mouse());
}

#[test]
fn shell_window_geometry_on_huge_panels() {
    assert_eq!(shell_surface(usize::MAX / 2, 1200, 40), None);
    assert_eq!(shell_origin(10, usize::MAX / 3, 0, 4, 0), (3, usize::MAX / 4));
}

fn offer(channel: &mut Vec<Event>, answers: &mut Vec<bool>, ev: Event) -> bool {
    let accepted = if answers.is_empty() { true } else { answers.remove(0) };
    if accepted {
        channel.push(ev);
    }
    accepted
}

fn service_pass(s: &mut Owed, queue: &mut Vec<Event>, channel: &mut Vec<Event>, answers: &mut Vec<bool>) {
    while let Some(debt) = retire_next(s) {
        let ok = offer(channel, answers, debt);
        retire_answer(s, ok);
        if !ok {
            break;
        }
    }
    while drain_open(s) && !queue.is_empty() {
        let ev = queue.remove(0);
        if let DrainStep::Offer(o) = drain_decide(s, ev) {
            let ok = offer(channel, answers, o);
            drain_answer(s, o, ok);
        }
    }
}

#[test]
fn forwarding_interval_merges_refused_motion_only() {
    let mut s = Owed { motion: None, event: None };
    let mut queue = vec![
        Event::Mouse { x: 1, y: 2 },
        Event::Mouse { x: 3, y: 4 },
        Event::Key(b'a'),
        Event::Timer,
        Event::Mouse { x: 5, y: 6 },
        Event::Button(1),
    ];
    let mut channel = Vec::new();
    let mut answers = vec![false];
    service_pass(&mut s, &mut queue, &mut channel, &mut answers);
    assert!(channel.is_empty());
    assert_eq!(s.motion, Some((4, 6)));
    assert_eq!(s.event, Some(Event::Key(b'a')));
    service_pass(&mut s, &mut queue, &mut channel, &mut answers);
    assert_eq!(
        channel,
        vec![Event::Mouse { x: 4, y: 6 }, Event::Key(b'a'), Event::Mouse { x: 5, y: 6 }, Event::Button(1)]
    );
    assert!(s.motion.is_none() && s.event.is_none() && queue.is_empty());
}

#[test]
fn forwarding_keeps_keys_in_order_when_motion_saturates() {
    let mut s = Owed { motion: None, event: None };
    let mut queue = vec![
        Event::Mouse { x: i32::MAX, y: 0 },
        Event::Mouse { x: 10, y: 0 },
        Event::Key(b'k'),
        Event::Key(b'l'),
    ];
    let mut channel = Vec::new();
    let mut answers = vec![false];
    service_pass(&mut s, &mut queue, &mut channel, &mut answers);
    assert_eq!(s.motion, Some((i32::MAX, 0)));
    service_pass(&mut s, &mut queue, &mut channel, &mut answers);
    assert_eq!(
        channel,
        vec![Event::Mouse { x: i32::MAX, y: 0 }, Event::Key(b'k'), Event::Key(b'l')]
    );
}
