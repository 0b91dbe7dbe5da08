use lib::gate::{
    census_fold, change_gate, clock_gate, period_gate, latch_once, pass_and_change_gate, pass_gate, urgent_or_throttled, wheel_total,
};
use lib::rehome::{mark_dead, pick_rescue, render_rehome, rehome_needs_scan, superseded, take_rescue, RehomeOutcome, RoleState};
use lib::rollup::{usbdebug_event_print, usbdebug_ptr_rollup_flush, DebugLine, PtrRollup};
use lib::event::Event;

#[test]
fn clock_gate_fires_on_first_and_after_period() {
    assert_eq!(clock_gate(0, 0, 500), Some(1));
    assert_eq!(clock_gate(1234, 0, 500), Some(1234));
    assert_eq!(clock_gate(1300, 1234, 500), None);
    assert_eq!(clock_gate(1734, 1234, 500), Some(1734));
    // a clock that went backwards reads as a huge interval
    assert_eq!(clock_gate(1000, 2000, 500), Some(1000));
}

#[test]
fn clock_gate_burst_prints_once() {
    let mut last = 0;
    let mut lines = 0;
    for _ in 0..10 {
        if let Some(s) = clock_gate(777, last, 250) {
            last = s;
            lines += 1;
        }
    }
    assert_eq!(lines, 1);
}

#[test]
fn pass_and_change_gates() {
    assert!(pass_gate(0, 1250));
    assert!(!pass_gate(1249, 1250));
    assert!(pass_gate(2500, 1250));
    assert_eq!(change_gate(5, 5), (false, 5));
    assert_eq!(change_gate(6, 5), (true, 6));
    assert_eq!(census_fold(1, 2, 3, 4, 5), 15);
    assert_eq!(census_fold(u64::MAX, 2, 0, 0, 0), 1);
    assert_eq!(pass_and_change_gate(3, 1250, 40, 7), (false, 7));
    assert_eq!(pass_and_change_gate(1250, 1250, 40, 7), (true, 40));
    assert_eq!(pass_and_change_gate(2500, 1250, 40, 40), (false, 40));
    assert_eq!(wheel_total(1, 2, 3), 6);
    assert_eq!(wheel_total(u32::MAX, 1, 0), 0);
}

#[test]
fn latches_and_urgent_lines() {
    assert_eq!(latch_once(false), (true, true));
    assert_eq!(latch_once(true), (false, true));
    assert_eq!(urgent_or_throttled(true, 10, 9, 250), (true, 9));
    assert_eq!(urgent_or_throttled(false, 10, 9, 250), (false, 9));
    assert_eq!(urgent_or_throttled(false, 300, 9, 250), (true, 300));
    assert_eq!(urgent_or_throttled(false, 0, 0, 250), (true, 1));
}

#[test]
fn dead_mask_and_rescue_pick() {
    assert_eq!(mark_dead(0, 3), 8);
    assert_eq!(mark_dead(8, 64), 8);
    assert_eq!(mark_dead(8, 0), 9);
    assert_eq!(pick_rescue(&vec![Some(3), Some(4)], 8), Some(4));
    assert_eq!(pick_rescue(&vec![Some(3), None, Some(4)], 8), None);
    assert_eq!(pick_rescue(&vec![Some(70), Some(5)], 0), Some(5));
    assert_eq!(pick_rescue(&vec![], 0), None);
}

#[test]
fn rehome_moves_role_off_dead_core() {
    let mut st = RoleState { dead_mask: 0, role_cpu: 1, epoch: 0, rescue_pending: false };
    assert_eq!(render_rehome(&mut st, None, &vec![Some(2)]), RehomeOutcome::NothingOwed);
    assert_eq!(st, RoleState { dead_mask: 0, role_cpu: 1, epoch: 0, rescue_pending: false });
    let out = render_rehome(&mut st, Some(1), &vec![Some(1), Some(2)]);
    assert_eq!(out, RehomeOutcome::Rehomed { dead: 1, rescue: 2 });
    assert_eq!(st, RoleState { dead_mask: 2, role_cpu: 2, epoch: 1, rescue_pending: true });
    assert!(superseded(0, st.epoch));
    assert!(!superseded(1, st.epoch));
    assert!(take_rescue(&mut st));
    assert!(!take_rescue(&mut st));
}

#[test]
fn rehome_declines_and_ignores_unrelated_deaths() {
    let mut st = RoleState { dead_mask: 0, role_cpu: 2, epoch: 5, rescue_pending: false };
    assert_eq!(render_rehome(&mut st, Some(3), &vec![Some(4)]), RehomeOutcome::NotCarried { dead: 3, role: 2 });
    assert_eq!(st.dead_mask, 8);
    assert_eq!(render_rehome(&mut st, Some(2), &vec![Some(3), Some(2), None]), RehomeOutcome::Declined { dead: 2 });
    assert_eq!(st, RoleState { dead_mask: 12, role_cpu: 2, epoch: 5, rescue_pending: false });
}

#[test]
fn rehome_epoch_wraps() {
    let mut st = RoleState { dead_mask: 0, role_cpu: 0, epoch: u64::MAX, rescue_pending: false };
    assert_eq!(render_rehome(&mut st, Some(0), &vec![Some(1)]), RehomeOutcome::Rehomed { dead: 0, rescue: 1 });
    assert_eq!(st.epoch, 0);
    assert!(superseded(u64::MAX, st.epoch));
}

fn run(st: &mut PtrRollup, ev: Event, now: u64) -> Vec<DebugLine> {
    let mut out = Vec::new();
    usbdebug_event_print(st, ev, now, &mut out);
    out
}

#[test]
fn debug_view_prologue_then_rollup() {
    let mut st = PtrRollup { verbatim_seen: 0, n: 0, dx: 0, dy: 0, first_ms: 0 };
    for i in 0..16 {
        assert_eq!(run(&mut st, Event::Mouse { x: i, y: -i }, 10), vec![DebugLine::MouseRelative { dx: i, dy: -i }]);
    }
    assert_eq!(st.verbatim_seen, 16);
    assert_eq!(run(&mut st, Event::Mouse { x: 2, y: 3 }, 100), vec![]);
    assert_eq!(run(&mut st, Event::Mouse { x: 5, y: -1 }, 200), vec![]);
    assert_eq!(st, PtrRollup { verbatim_seen: 16, n: 2, dx: 7, dy: 2, first_ms: 100 });
    assert_eq!(
        run(&mut st, Event::Mouse { x: 1, y: 1 }, 350),
        vec![DebugLine::MouseRollup { n: 3, sum_x: 8, sum_y: 3, span: 250 }]
    );
    assert_eq!(st.n, 0);
}

#[test]
fn debug_view_flushes_ahead_of_edges() {
    let mut st = PtrRollup { verbatim_seen: 16, n: 0, dx: 0, dy: 0, first_ms: 0 };
    run(&mut st, Event::Mouse { x: -4, y: 6 }, 1000);
    assert_eq!(
        run(&mut st, Event::Button(0), 1100),
        vec![DebugLine::MouseRollup { n: 1, sum_x: -4, sum_y: 6, span: 100 }, DebugLine::Button { mask: 0 }]
    );
    assert_eq!(run(&mut st, Event::Key(b'a'), 1200), vec![DebugLine::Key { code: b'a', shown: b'a' }]);
    assert_eq!(run(&mut st, Event::Key(0x1b), 1200), vec![DebugLine::Key { code: 0x1b, shown: b'.' }]);
    assert_eq!(run(&mut st, Event::MouseAbsolute { x: 9, y: 8 }, 1300), vec![DebugLine::MouseAbsolute { x: 9, y: 8 }]);
    run(&mut st, Event::Mouse { x: 1, y: 0 }, 1400);
    assert_eq!(run(&mut st, Event::Nothing, 1450), vec![]);
    assert_eq!(st.n, 1);
    assert_eq!(run(&mut st, Event::Timer, 1500), vec![DebugLine::MouseRollup { n: 1, sum_x: 1, sum_y: 0, span: 100 }]);
    let mut out = Vec::new();
    usbdebug_ptr_rollup_flush(&mut st, 2000, &mut out);
    assert!(out.is_empty());
}

#[test]
fn debug_view_conserves_travel() {
    let mut st = PtrRollup { verbatim_seen: 14, n: 0, dx: 0, dy: 0, first_ms: 0 };
    let moves = [(3, 1), (-2, 4), (10, 10), (-7, 0), (1, -1), (6, 2)];
    let mut printed_x: i64 = 0;
    for (i, (x, y)) in moves.iter().enumerate() {
        for line in run(&mut st, Event::Mouse { x: *x, y: *y }, (i as u64) * 100) {
            match line {
                DebugLine::MouseRelative { dx, .. } => printed_x += dx as i64,
                DebugLine::MouseRollup { sum_x, .. } => printed_x += sum_x,
                _ => {}
            }
        }
    }
    let total: i64 = moves.iter().map(|m| m.0 as i64).sum();
    assert_eq!(printed_x + st.dx, total);
}

#[test]
fn rehome_scans_only_for_the_role_carrier() {
    let st = RoleState { dead_mask: 0, role_cpu: 2, epoch: 0, rescue_pending: false };
    assert!(rehome_needs_scan(&st, Some(2)));
    assert!(!rehome_needs_scan(&st, Some(3)));
    assert!(!rehome_needs_scan(&st, None));
}

#[test]
fn superseded_instance_stays_superseded() {
    for k in 1..1000u64 {
        assert!(superseded(7, 7u64.wrapping_add(k)));
        assert!(superseded(u64::MAX, u64::MAX.wrapping_add(k)));
    }
}

#[test]
fn period_gate_has_no_zero_stamp() {
    assert_eq!(period_gate(100, 0, 250), None);
    assert_eq!(period_gate(300, 0, 250), Some(300));
    assert_eq!(period_gate(5, u64::MAX - 300, 250), Some(5));
    assert_eq!(clock_gate(100, 0, 250), Some(100));
}
