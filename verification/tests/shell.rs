use magic_dot::dock::dock;
use magic_dot::follow::{FollowAction, FollowEvent, FollowModeController, FollowState};
use magic_dot::geometry::{MouseSample, PhysicalPosition, PhysicalSize};
use magic_dot::stepper::{AnimationPlan, AnimationStepper};
use magic_dot::config::POLL_INTERVAL_MS;
use magic_dot::watcher::ActiveWindowWatcher;

/// What a simulated platform was asked to do, in order.
#[derive(Debug, Clone, PartialEq)]
enum Did {
    Resize(PhysicalSize),
    Move(PhysicalPosition),
    Sleep(u64),
    Signal(String),
}

/// A window that keeps what is applied to it, and the trail of what was done.
struct Desk {
    size: PhysicalSize,
    position: PhysicalPosition,
    trail: Vec<Did>,
}

impl Desk {
    fn new(size: PhysicalSize, position: PhysicalPosition) -> Desk {
        Desk { size, position, trail: Vec::new() }
    }

    fn resize(&mut self, plan: AnimationPlan<PhysicalSize>) {
        let mut stepper = AnimationStepper::new(plan);
        while let Some(frame) = stepper.next() {
            self.size = frame.value;
            self.trail.push(Did::Resize(frame.value));
            if let Some(ms) = frame.pause_ms {
                self.trail.push(Did::Sleep(ms));
            }
        }
    }

    fn slide(&mut self, plan: AnimationPlan<PhysicalPosition>) {
        let mut stepper = AnimationStepper::new(plan);
        while let Some(frame) = stepper.next() {
            self.position = frame.value;
            self.trail.push(Did::Move(frame.value));
            if let Some(ms) = frame.pause_ms {
                self.trail.push(Did::Sleep(ms));
            }
        }
    }

    /// Runs one invocation of follow mode to its end. `cursor` gives the
    /// cursor at each tick, from the tick's number and the dot's position.
    fn follow(&mut self, cursor: &dyn Fn(usize, PhysicalPosition) -> (i32, i32)) -> usize {
        let mut controller = FollowModeController::new();
        let mut action = controller.handle(FollowEvent::Invoke { widget: Some(self.size) });
        let mut ticks = 0;
        loop {
            action = match action {
                FollowAction::Animate(plan) => {
                    self.resize(plan);
                    controller.handle(FollowEvent::AnimationComplete)
                }
                FollowAction::StartFollowing => self.tick(&mut controller, cursor, &mut ticks),
                FollowAction::Rest { ms } => {
                    self.trail.push(Did::Sleep(ms));
                    self.tick(&mut controller, cursor, &mut ticks)
                }
                FollowAction::MoveTo { position, rest_ms } => {
                    self.position = position;
                    self.trail.push(Did::Move(position));
                    self.trail.push(Did::Sleep(rest_ms));
                    self.tick(&mut controller, cursor, &mut ticks)
                }
                FollowAction::Emit { first, second } => {
                    self.trail.push(Did::Signal(first.name().to_string()));
                    self.trail.push(Did::Signal(second.name().to_string()));
                    assert_eq!(controller.state(), FollowState::Idle);
                    return ticks;
                }
                other => panic!("unexpected action {:?}", other),
            };
            assert!(ticks < 10_000);
        }
    }

    fn tick(
        &mut self,
        controller: &mut FollowModeController,
        cursor: &dyn Fn(usize, PhysicalPosition) -> (i32, i32),
        ticks: &mut usize,
    ) -> FollowAction {
        let (x, y) = cursor(*ticks, self.position);
        *ticks += 1;
        controller.handle(FollowEvent::Tick {
            mouse: MouseSample { x, y },
            position: Some(self.position),
            size: Some(self.size),
        })
    }
}

fn size(width: u32, height: u32) -> PhysicalSize {
    PhysicalSize { width, height }
}

fn at(x: i32, y: i32) -> PhysicalPosition {
    PhysicalPosition { x, y }
}

#[test]
fn follow_mode_with_a_still_cursor_at_the_centre() {
    let mut desk = Desk::new(size(400, 48), at(100, 100));
    let ticks = desk.follow(&|_, _| (110, 110));
    assert_eq!(ticks, 1);
    assert_eq!(desk.size, size(400, 48));
    assert_eq!(desk.position, at(100, 100));

    let mut expected = Vec::new();
    for i in 1..=10u32 {
        expected.push(Did::Resize(size(400 - 38 * i, 48 - 2 * i)));
        expected.push(Did::Sleep(10));
    }
    expected.push(Did::Resize(size(20, 20)));
    for i in 1..=10u32 {
        expected.push(Did::Resize(size(20 + 38 * i, 20 + 2 * i)));
        expected.push(Did::Sleep(10));
    }
    expected.push(Did::Resize(size(400, 48)));
    expected.push(Did::Signal("exit_follow_mode".to_string()));
    expected.push(Did::Signal("onboarding_done".to_string()));
    assert_eq!(desk.trail, expected);
}

#[test]
fn follow_mode_trails_a_far_cursor_and_parks_near_it() {
    let mut desk = Desk::new(size(400, 48), at(0, 0));
    // The cursor waits far away for 60 ticks, then comes to the dot.
    let mut cursor = vec![(600, 310); 60];
    cursor.push((0, 0));
    let mut controller = FollowModeController::new();
    controller.handle(FollowEvent::Invoke { widget: Some(desk.size) });
    desk.resize(AnimationPlan { from: size(400, 48), to: size(20, 20), steps: 10, delay_ms: 10 });
    controller.handle(FollowEvent::AnimationComplete);

    let mut places = vec![desk.position];
    for &(x, y) in &cursor[..60] {
        let action = controller.handle(FollowEvent::Tick {
            mouse: MouseSample { x, y },
            position: Some(desk.position),
            size: Some(desk.size),
        });
        if let FollowAction::MoveTo { position, .. } = action {
            desk.position = position;
            places.push(position);
        } else {
            assert_eq!(action, FollowAction::Rest { ms: 4 });
        }
    }
    // First stride: 0.15 of (590, 300).
    assert_eq!(places[1], at(88, 45));
    // It parked in the dead zone, short of the cursor.
    let dx = (600 - (desk.position.x + 10)) as i64;
    let dy = (310 - (desk.position.y + 10)) as i64;
    assert!(dx * dx + dy * dy <= 1600);
    assert!(dx * dx + dy * dy >= 400);
    assert_eq!(controller.state(), FollowState::Following);

    // The cursor jumps onto the dot: the next tick ends follow mode.
    let centre = (desk.position.x + 10, desk.position.y + 10);
    let action = controller.handle(FollowEvent::Tick {
        mouse: MouseSample { x: centre.0, y: centre.1 },
        position: Some(desk.position),
        size: Some(desk.size),
    });
    assert_eq!(
        action,
        FollowAction::Animate(AnimationPlan { from: size(20, 20), to: size(400, 48), steps: 10, delay_ms: 10 })
    );
}

#[test]
fn follow_mode_whole_run_with_a_returning_cursor() {
    let mut desk = Desk::new(size(400, 48), at(50, 50));
    // The cursor waits far away for 30 ticks, then comes to the dot's centre.
    let ticks = desk.follow(&|tick, dot| if tick < 30 { (400, 60) } else { (dot.x + 10, dot.y + 10) });
    assert_eq!(ticks, 31);
    assert_ne!(desk.position, at(50, 50));
    assert_eq!(desk.size, size(400, 48));
    let signals: Vec<&Did> = desk.trail.iter().filter(|did| matches!(did, Did::Signal(_))).collect();
    assert_eq!(
        signals,
        vec![&Did::Signal("exit_follow_mode".to_string()), &Did::Signal("onboarding_done".to_string())]
    );
    // Nothing is done after the signals, and no move comes after the expansion began.
    assert_eq!(desk.trail[desk.trail.len() - 3], Did::Resize(size(400, 48)));
    let last_move = desk.trail.iter().rposition(|did| matches!(did, Did::Move(_))).unwrap();
    let first_growth = desk.trail.iter().rposition(|did| *did == Did::Resize(size(58, 22))).unwrap();
    assert!(last_move < first_growth);
}

#[test]
fn docking_a_dot_on_a_full_hd_monitor() {
    let mut desk = Desk::new(size(20, 20), at(100, 100));
    let plan = dock(Some(desk.position), Some(desk.size), Some(size(1920, 1080))).unwrap();
    desk.slide(plan);
    assert_eq!(desk.position, at(950, 0));
    assert_eq!(desk.trail.len(), 21);
    assert_eq!(desk.trail[0], Did::Move(at(185, 90)));
    assert_eq!(desk.trail[1], Did::Sleep(10));
    assert_eq!(desk.trail[20], Did::Move(at(950, 0)));
}

#[test]
fn docking_without_a_monitor_does_nothing() {
    let desk = Desk::new(size(20, 20), at(100, 100));
    assert_eq!(dock(Some(desk.position), Some(desk.size), None), None);
    assert!(desk.trail.is_empty());
}

#[test]
fn the_watch_loop_reports_each_change_once() {
    let answers = [
        Some("explorer.exe"),
        Some("explorer.exe"),
        None,
        Some("quack.exe"),
        Some("Code.exe"),
        Some("Code.exe"),
        Some(""),
        Some("explorer.exe"),
    ];
    let mut watcher = ActiveWindowWatcher::new();
    let mut trail = Vec::new();
    for answer in answers {
        let action = watcher.observe(answer.map(|name| name.to_string()));
        if let Some(name) = action.report {
            trail.push(Did::Signal(name));
        }
        trail.push(Did::Sleep(action.sleep_ms));
    }
    let reports: Vec<&Did> = trail.iter().filter(|did| matches!(did, Did::Signal(_))).collect();
    assert_eq!(
        reports,
        vec![
            &Did::Signal("explorer".to_string()),
            &Did::Signal("Code".to_string()),
            &Did::Signal("explorer".to_string()),
        ]
    );
    assert_eq!(trail.iter().filter(|did| **did == Did::Sleep(POLL_INTERVAL_MS)).count(), 8);
}
