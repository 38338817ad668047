use std::cell::Cell;

use ble_copter::gate::{GateAction, GateEvent, GateState};
use ble_copter::state::SystemState;

// A stand-in for a hardware handle owned by the gated work: it records its
// release when dropped.
struct Handle<'a> {
    released: &'a Cell<u32>,
}

impl Drop for Handle<'_> {
    fn drop(&mut self) {
        self.released.set(self.released.get() + 1);
    }
}

fn apply<'a>(a: GateAction, work: &mut Option<Handle<'a>>, released: &'a Cell<u32>, started: &mut u32) {
    match a {
        GateAction::Start => {
            *work = Some(Handle { released });
            *started += 1;
        }
        GateAction::Cancel => *work = None,
        GateAction::Wait | GateAction::Continue => {}
    }
}

#[test]
fn work_runs_only_while_link_may_run_and_releases_on_cancel() {
    let released = Cell::new(0);
    let mut started = 0;
    let mut work: Option<Handle> = None;
    let mut s = SystemState::new();

    // critically low battery, not charging: nothing starts
    let (mut gate, a) = GateState::begin(s.link_may_run());
    apply(a, &mut work, &released, &mut started);
    assert!(work.is_none());
    s.add_soc(3);
    let (g, a) = gate.step(GateEvent::Changed, s.link_may_run());
    gate = g;
    apply(a, &mut work, &released, &mut started);
    assert_eq!(started, 0);

    // charging makes it start
    s.set_charging(true);
    let (g, a) = gate.step(GateEvent::Changed, s.link_may_run());
    gate = g;
    apply(a, &mut work, &released, &mut started);
    assert_eq!(started, 1);
    assert!(work.is_some());

    // unplugged while critically low: cancelled, handle released
    s.set_charging(false);
    let (g, a) = gate.step(GateEvent::Changed, s.link_may_run());
    gate = g;
    assert_eq!(a, GateAction::Cancel);
    apply(a, &mut work, &released, &mut started);
    assert!(work.is_none());
    assert_eq!(released.get(), 1);
    assert_eq!(gate, GateState::Waiting);
}
