use gameloop::{FrameAction, GameLoop, GameLoopError, Interpolation};

/// Drain one poll by repeated draws, handing `elapsed` in for both the tick
/// test and the render reading, as a host that simulates time would.
fn drain_at(game_loop: &mut GameLoop, elapsed: usize) -> Vec<FrameAction> {
    let mut actions = game_loop.actions();
    let mut drained = Vec::new();
    while let Some(action) = actions.next_at(game_loop, elapsed, elapsed) {
        drained.push(action);
    }
    drained
}

fn tick_count_of(actions: &[FrameAction]) -> usize {
    actions.iter().filter(|a| matches!(a, FrameAction::Tick)).count()
}

fn render_count_of(actions: &[FrameAction]) -> usize {
    actions
        .iter()
        .filter(|a| matches!(a, FrameAction::Render { .. }))
        .count()
}

fn interpolation_of(actions: &[FrameAction]) -> Interpolation {
    match actions.last() {
        Some(FrameAction::Render { interpolation }) => *interpolation,
        _ => panic!("expected the drain to end in a render action"),
    }
}

fn factor_of(i: Interpolation) -> f64 {
    i.numerator as f64 / i.denominator as f64
}

fn expect_err(r: Result<GameLoop, GameLoopError>) -> GameLoopError {
    match r {
        Ok(_) => panic!("expected a configuration error"),
        Err(e) => e,
    }
}

#[test]
fn create_computes_tick_interval() {
    assert_eq!(GameLoop::new(20, 5).unwrap().tick_interval_ms(), 50);
    assert_eq!(GameLoop::new(7, 1).unwrap().tick_interval_ms(), 142);
    assert_eq!(GameLoop::new(1, 1).unwrap().tick_interval_ms(), 1000);
    assert_eq!(GameLoop::new(3, 2).unwrap().tick_interval_ms(), 333);
    assert_eq!(GameLoop::new(1000, 1).unwrap().tick_interval_ms(), 1);
}

#[test]
fn create_starts_with_zero_deadline() {
    let game_loop = GameLoop::new(20, 5).unwrap();
    assert_eq!(game_loop.next_deadline_ms(), 0);
    assert_eq!(game_loop.max_catchup_ticks(), 5);
}

#[test]
fn create_rejects_zero_tick_rate() {
    assert_eq!(expect_err(GameLoop::new(0, 5)), GameLoopError::BadTps);
    assert_eq!(expect_err(GameLoop::new(0, 1)), GameLoopError::BadTps);
}

#[test]
fn create_rejects_zero_frameskip() {
    assert_eq!(expect_err(GameLoop::new(5, 0)), GameLoopError::BadFrameSkip);
    assert_eq!(expect_err(GameLoop::new(1, 0)), GameLoopError::BadFrameSkip);
}

#[test]
fn create_checks_tick_rate_first() {
    assert_eq!(expect_err(GameLoop::new(0, 0)), GameLoopError::BadTps);
}

#[test]
fn error_messages() {
    assert_eq!(
        expect_err(GameLoop::new(0, 1)).message(),
        "Ticks per second must be >= 1"
    );
    assert_eq!(
        expect_err(GameLoop::new(1, 0)).message(),
        "Max frame skip must be >= 1"
    );
}

#[test]
fn drain_ends_in_exactly_one_render() {
    let mut game_loop = GameLoop::new(20, 10).unwrap();
    let drained = drain_at(&mut game_loop, 230);
    assert_eq!(render_count_of(&drained), 1);
    assert!(matches!(drained.last(), Some(FrameAction::Render { .. })));
    for action in &drained[..drained.len() - 1] {
        assert_eq!(*action, FrameAction::Tick);
    }
}

#[test]
fn ticks_due_are_paid_before_render() {
    // 230 ms at 50 ms per tick: deadlines 0, 50, 100, 150, 200 have passed,
    // so five ticks are due and the deadline ends at 250.
    let mut game_loop = GameLoop::new(20, 10).unwrap();
    let drained = drain_at(&mut game_loop, 230);
    assert_eq!(tick_count_of(&drained), 5);
    assert_eq!(game_loop.next_deadline_ms(), 250);
    let interpolation = interpolation_of(&drained);
    assert_eq!(interpolation.numerator, 30);
    assert_eq!(interpolation.denominator, 50);
    assert_eq!(factor_of(interpolation), 0.6);
}

#[test]
fn catchup_cap_limits_ticks() {
    // 400 ms at 50 ms per tick: eight ticks are due but the cap of five
    // wins, and the render's interpolation carries the unpaid debt.
    let mut game_loop = GameLoop::new(20, 5).unwrap();
    let drained = drain_at(&mut game_loop, 400);
    assert_eq!(tick_count_of(&drained), 5);
    assert_eq!(render_count_of(&drained), 1);
    assert_eq!(game_loop.next_deadline_ms(), 250);
    let interpolation = interpolation_of(&drained);
    assert_eq!(interpolation.numerator, 200);
    assert_eq!(interpolation.denominator, 50);
    assert_eq!(factor_of(interpolation), 4.0);
}

#[test]
fn cap_exactly_reached_at_230ms() {
    let mut game_loop = GameLoop::new(20, 5).unwrap();
    let drained = drain_at(&mut game_loop, 230);
    assert_eq!(tick_count_of(&drained), 5);
    assert_eq!(render_count_of(&drained), 1);
}

#[test]
fn immediate_second_poll_only_renders() {
    let mut game_loop = GameLoop::new(20, 10).unwrap();
    let first = drain_at(&mut game_loop, 230);
    assert_eq!(tick_count_of(&first), 5);
    // No time has passed since the fully drained poll: the second poll
    // yields zero ticks and one render.
    let second = drain_at(&mut game_loop, 230);
    assert_eq!(tick_count_of(&second), 0);
    assert_eq!(render_count_of(&second), 1);
    assert_eq!(second.len(), 1);
}

#[test]
fn deadline_advances_across_polls() {
    let mut game_loop = GameLoop::new(20, 10).unwrap();
    let first = drain_at(&mut game_loop, 60);
    assert_eq!(tick_count_of(&first), 2);
    assert_eq!(game_loop.next_deadline_ms(), 100);
    let second = drain_at(&mut game_loop, 120);
    assert_eq!(tick_count_of(&second), 1);
    assert_eq!(game_loop.next_deadline_ms(), 150);
}

#[test]
fn immediate_poll_interpolates_full_interval() {
    // With one tick per second and no time elapsed, the render sits one
    // whole interval past the deadline: (0 + 1000 - 0) / 1000 = 1.0.
    let mut game_loop = GameLoop::new(1, 1).unwrap();
    let drained = drain_at(&mut game_loop, 0);
    assert_eq!(tick_count_of(&drained), 0);
    let interpolation = interpolation_of(&drained);
    assert_eq!(interpolation.numerator, 1000);
    assert_eq!(interpolation.denominator, 1000);
    assert_eq!(factor_of(interpolation), 1.0);
}

#[test]
fn sequence_exhausted_after_render() {
    let mut game_loop = GameLoop::new(20, 5).unwrap();
    let mut actions = game_loop.actions();
    loop {
        match actions.next_at(&mut game_loop, 10, 10) {
            Some(FrameAction::Render { .. }) => break,
            Some(FrameAction::Tick) => {}
            None => panic!("the sequence ended without a render"),
        }
    }
    // Exhausted for good, even though far more time has passed since.
    assert_eq!(actions.next_at(&mut game_loop, 100_000, 100_000), None);
    assert_eq!(actions.next_at(&mut game_loop, 200_000, 200_000), None);
}

#[test]
fn tick_rate_above_thousand_gives_zero_interval() {
    let mut game_loop = GameLoop::new(2000, 3).unwrap();
    assert_eq!(game_loop.tick_interval_ms(), 0);
    let drained = drain_at(&mut game_loop, 7);
    assert_eq!(tick_count_of(&drained), 3);
    let interpolation = interpolation_of(&drained);
    assert_eq!(interpolation.numerator, 7);
    assert_eq!(interpolation.denominator, 0);
    assert!(factor_of(interpolation).is_infinite());
}

#[test]
fn render_reading_behind_deadline_gives_negative_interpolation() {
    let mut game_loop = GameLoop::new(20, 5).unwrap();
    let mut actions = game_loop.actions();
    for _ in 0..5 {
        assert_eq!(
            actions.next_at(&mut game_loop, 230, 230),
            Some(FrameAction::Tick)
        );
    }
    // A render reading far behind the deadline: (100 + 50 - 250) / 50.
    let render = actions.next_at(&mut game_loop, 230, 100);
    match render {
        Some(FrameAction::Render { interpolation }) => {
            assert_eq!(interpolation.numerator, -100);
            assert_eq!(factor_of(interpolation), -2.0);
        }
        _ => panic!("expected a render action"),
    }
}

#[test]
fn live_poll_against_the_clock() {
    let mut game_loop = GameLoop::new(20, 5).unwrap();
    let mut actions = game_loop.actions();
    let mut drained = Vec::new();
    while let Some(action) = actions.next(&mut game_loop) {
        drained.push(action);
    }
    assert_eq!(render_count_of(&drained), 1);
    assert!(matches!(drained.last(), Some(FrameAction::Render { .. })));
    assert!(tick_count_of(&drained) <= 5);
}
