use vstd::prelude::*;

verus! {

/// The scheduler at the heart of the game loop.
///
/// It owns the timing state for the lifetime of the game: the monotonic
/// instant the game started, the fixed interval between simulation ticks,
/// the bound on catch-up ticks per poll, and the deadline (in milliseconds
/// since the start) at which the next tick is due.
pub struct GameLoop {
    /// The game start time.
    start_time: std::time::Instant,

    /// Milliseconds between each game tick.
    skip_ticks: usize,

    /// Maximum number of consecutive ticks before a render is mandatory.
    max_frameskip: usize,

    /// Time in ms for the next scheduled game tick.
    next_game_tick: usize,
}

/// Errors possible when initializing `GameLoop`.
#[derive(Debug, Clone, Copy, PartialEq, Eq, Structural)]
pub enum GameLoopError {
    /// The requested tick rate was below one tick per second.
    BadTps,
    /// The requested maximum frame skip was below one.
    BadFrameSkip,
}

/// The fractional position of "now" between the last and the next tick
/// boundary, as the exact ratio `numerator / denominator`.
///
/// The numerator is `render_elapsed_ms + tick_interval_ms - deadline_ms` and
/// the denominator is `tick_interval_ms`. Under pathological timing the
/// ratio may be negative, zero, or greater than one; it is not clamped. The
/// host divides the two fields in its own floating-point type to blend the
/// previous and current simulation state.
#[derive(Debug, Clone, Copy, PartialEq, Eq, Structural)]
pub struct Interpolation {
    /// Milliseconds from the previous tick boundary to "now" plus one whole
    /// tick interval. May be negative only if the clock readings handed in
    /// by the caller go backwards.
    pub numerator: i128,

    /// The tick interval in milliseconds.
    pub denominator: usize,
}

/// A tick or render instruction, to be interpreted by the host's game.
///
/// `Tick` asks the host to simulate one game tick. `Render` asks it to draw
/// the game state, interpolated by the given amount between the previous
/// tick and the next.
#[derive(Debug, Clone, Copy, PartialEq, Eq, Structural)]
pub enum FrameAction {
    /// The game should simulate one tick.
    Tick,

    /// The game should render the game state interpolated by the given
    /// amount between the previous tick and the current.
    Render { interpolation: Interpolation },
}

/// The sequence of `FrameAction`s for one poll, returned by
/// `GameLoop::actions`.
///
/// It is drawn from step by step and is exhausted once the render action
/// has been produced; a fresh sequence must be taken from the scheduler for
/// every iteration of the host loop.
pub struct FrameActions {
    /// Ticks taken from this sequence so far, bounded by the scheduler's
    /// catch-up limit.
    loops: usize,

    /// Whether the single render action has been produced.
    rendered: bool,
}

/// `std::time::Instant` as an opaque value: a reading of the monotonic clock.
#[verifier::external_type_specification]
#[verifier::external_body]
pub struct ExInstant(std::time::Instant);

/// Relies on `std::time::Instant::now`: a reading of the monotonic clock.
/// Nothing can be promised of the reading itself.
#[verifier::external_body]
fn instant_now() -> std::time::Instant {
    std::time::Instant::now()
}

/// Relies on `std::time::Instant::elapsed`: the time since `start`, as
/// measured by the monotonic clock at the moment of the call. The reading
/// depends on when it is made, so nothing can be promised of it.
#[verifier::external_body]
fn instant_elapsed(start: &std::time::Instant) -> std::time::Duration {
    start.elapsed()
}

/// Relies on `std::time::Duration::as_millis`: the duration in whole
/// milliseconds. The duration itself is opaque here, so no more is stated.
#[verifier::external_body]
fn duration_millis(d: &std::time::Duration) -> u128 {
    d.as_millis()
}

/// Whether `n` is a non-negative multiple of `d`.
spec fn is_multiple_of(n: int, d: int) -> bool {
    exists|k: nat| n == #[trigger] (k * d)
}

/// One draw from the action sequence, as a mathematical function of the
/// scheduler's configuration and state, the sequence's state, and the two
/// clock readings the draw may consume.
///
/// The arguments are the tick interval `skip`, the catch-up bound `max`,
/// the deadline `next`, the ticks already taken this poll `loops`, the
/// render latch `rendered`, the reading `elapsed` used for the tick test,
/// and the reading `render_elapsed` used for the interpolation. The result
/// carries the new deadline, the new tick count, the new render latch, and
/// the action drawn: once rendered the sequence yields nothing; while time
/// has passed the deadline and the catch-up bound is not hit, it yields a
/// tick and advances the deadline by one interval; otherwise it yields the
/// single render action with the exact interpolation ratio.
pub open spec fn spec_step(
    skip: int,
    max: int,
    next: int,
    loops: int,
    rendered: bool,
    elapsed: int,
    render_elapsed: int,
) -> (int, int, bool, Option<FrameAction>) {
    if rendered {
        (next, loops, true, None::<FrameAction>)
    } else if elapsed > next && loops < max {
        (next + skip, loops + 1, false, Some(FrameAction::Tick))
    } else {
        (
            next,
            loops,
            true,
            Some(
                FrameAction::Render {
                    interpolation: Interpolation {
                        numerator: (render_elapsed + skip - next) as i128,
                        denominator: skip as usize,
                    },
                },
            ),
        )
    }
}

/// Whether one draw carried the scheduler and the sequence from the `pre`
/// states to the `post` states and produced `r`, given the clock readings
/// `elapsed` and `render_elapsed`.
pub open spec fn step_relates(
    pre_gl: GameLoop,
    pre_fa: FrameActions,
    elapsed: int,
    render_elapsed: int,
    post_gl: GameLoop,
    post_fa: FrameActions,
    r: Option<FrameAction>,
) -> bool {
    let s = spec_step(
        pre_gl.tick_interval() as int,
        pre_gl.catchup_bound() as int,
        pre_gl.deadline() as int,
        pre_fa.ticks_taken() as int,
        pre_fa.rendered(),
        elapsed,
        render_elapsed,
    );
    &&& post_gl.start() == pre_gl.start()
    &&& post_gl.tick_interval() == pre_gl.tick_interval()
    &&& post_gl.catchup_bound() == pre_gl.catchup_bound()
    &&& post_gl.deadline() == s.0
    &&& post_fa.ticks_taken() == s.1
    &&& post_fa.rendered() == s.2
    &&& r == s.3
}

impl GameLoop {
    /// The monotonic instant captured at construction, from which every
    /// elapsed reading is measured; immutable thereafter.
    pub closed spec fn start(self) -> std::time::Instant {
        self.start_time
    }

    /// Milliseconds between two scheduled ticks: `1000 / tps`, truncated.
    pub closed spec fn tick_interval(self) -> usize {
        self.skip_ticks
    }

    /// The bound on catch-up ticks in one poll.
    pub closed spec fn catchup_bound(self) -> usize {
        self.max_frameskip
    }

    /// Milliseconds since the start at which the next tick is due.
    pub closed spec fn deadline(self) -> usize {
        self.next_game_tick
    }

    /// The deadline is a non-negative multiple of the tick interval, the
    /// interval is at most a second, and at least one catch-up tick is
    /// allowed per poll.
    #[verifier::type_invariant]
    spec fn wf(self) -> bool {
        &&& self.skip_ticks <= 1000
        &&& self.max_frameskip >= 1
        &&& is_multiple_of(self.next_game_tick as int, self.skip_ticks as int)
    }

    /// Create a new game loop.
    ///
    /// # Arguments
    /// * `tps`: game ticks per second
    /// * `max_frameskip`: maximum number of consecutive ticks before a
    ///   render is mandatory. When rendering is slow the game catches up by
    ///   at most this many ticks per poll, after which the game itself slows
    ///   down rather than accumulating unbounded tick debt.
    ///
    /// Captures the current monotonic time as the start time; the tick
    /// interval is `1000 / tps` milliseconds, truncated.
    pub fn new(tps: usize, max_frameskip: usize) -> (r: Result<Self, GameLoopError>)
        ensures
            tps < 1 ==> r == Result::<Self, GameLoopError>::Err(GameLoopError::BadTps),
            tps >= 1 && max_frameskip < 1 ==> r == Result::<Self, GameLoopError>::Err(
                GameLoopError::BadFrameSkip,
            ),
            tps >= 1 && max_frameskip >= 1 ==> {
                &&& r is Ok
                &&& r->Ok_0.tick_interval() == 1000int / tps as int
                &&& r->Ok_0.catchup_bound() == max_frameskip
                &&& r->Ok_0.deadline() == 0
            },
    {
        if tps < 1 {
            return Err(GameLoopError::BadTps);
        }
        if max_frameskip < 1 {
            return Err(GameLoopError::BadFrameSkip);
        }
        let start_time = instant_now();
        let skip_ticks: usize = 1000 / tps;
        proof {
            assert(0int == 0nat * (skip_ticks as int));
        }
        Ok(Self { start_time, max_frameskip, skip_ticks, next_game_tick: 0 })
    }

    /// Milliseconds between two scheduled ticks.
    pub fn tick_interval_ms(&self) -> (r: usize)
        ensures
            r == self.tick_interval(),
    {
        self.skip_ticks
    }

    /// The bound on catch-up ticks in one poll.
    pub fn max_catchup_ticks(&self) -> (r: usize)
        ensures
            r == self.catchup_bound(),
    {
        self.max_frameskip
    }

    /// Milliseconds since the start at which the next tick is due.
    pub fn next_deadline_ms(&self) -> (r: usize)
        ensures
            r == self.deadline(),
    {
        self.next_game_tick
    }

    /// Milliseconds since the game started, read from the monotonic clock.
    ///
    /// The reading is capped so that later deadline arithmetic stays within
    /// the machine's integer range; for realistic run times the cap is
    /// never reached.
    pub fn tick_count(&self) -> (r: usize)
        ensures
            r <= usize::MAX - 1000,
    {
        let d = instant_elapsed(&self.start_time);
        let ms: u128 = duration_millis(&d);
        let cap: usize = usize::MAX - 1000;
        if ms > cap as u128 {
            cap
        } else {
            ms as usize
        }
    }

    /// Advance the deadline for the next scheduled tick by one interval.
    fn increment_next_game_tick(&mut self)
        requires
            old(self).deadline() + old(self).tick_interval() <= usize::MAX,
        ensures
            final(self).deadline() == old(self).deadline() + old(self).tick_interval(),
            final(self).start() == old(self).start(),
            final(self).tick_interval() == old(self).tick_interval(),
            final(self).catchup_bound() == old(self).catchup_bound(),
    {
        proof {
            use_type_invariant(&*self);
            let k = choose|k: nat|
                self.next_game_tick as int == #[trigger] (k * (self.skip_ticks as int));
            assert(self.next_game_tick as int + self.skip_ticks as int == (k + 1) * (
            self.skip_ticks as int)) by (nonlinear_arith)
                requires
                    self.next_game_tick as int == k * (self.skip_ticks as int),
            ;
        }
        let current = self.next_game_tick;
        self.next_game_tick = current + self.skip_ticks;
    }

    /// Begin one poll: the sequence of frame actions for this iteration of
    /// the host loop. Drain it fully before the next call, or the ticks and
    /// render owed for this frame are lost.
    pub fn actions(&self) -> (r: FrameActions)
        ensures
            r.ticks_taken() == 0,
            !r.rendered(),
    {
        FrameActions { loops: 0, rendered: false }
    }
}

impl FrameActions {
    /// Ticks taken from this sequence so far.
    pub closed spec fn ticks_taken(self) -> usize {
        self.loops
    }

    /// Whether the single render action has been produced.
    pub closed spec fn rendered(self) -> bool {
        self.rendered
    }

    /// One draw from the sequence, with the clock readings handed in by the
    /// caller: `elapsed_ms` decides whether a tick is due and
    /// `render_elapsed_ms` enters the interpolation ratio. The two may
    /// differ — `next` hands in the later of its two live readings for the
    /// render — while a caller simulating time passes the same value for
    /// both.
    pub fn next_at(
        &mut self,
        game_loop: &mut GameLoop,
        elapsed_ms: usize,
        render_elapsed_ms: usize,
    ) -> (r: Option<FrameAction>)
        requires
            elapsed_ms <= usize::MAX - 1000,
        ensures
            step_relates(
                *old(game_loop),
                *old(self),
                elapsed_ms as int,
                render_elapsed_ms as int,
                *final(game_loop),
                *final(self),
                r,
            ),
    {
        proof {
            use_type_invariant(&*game_loop);
        }
        if self.rendered {
            return None;
        }
        if elapsed_ms > game_loop.next_game_tick && self.loops < game_loop.max_frameskip {
            game_loop.increment_next_game_tick();
            self.loops = self.loops + 1;
            return Some(FrameAction::Tick);
        }
        self.rendered = true;
        let skip = game_loop.skip_ticks;
        let numerator: i128 = render_elapsed_ms as i128 + skip as i128
            - game_loop.next_game_tick as i128;
        Some(FrameAction::Render { interpolation: Interpolation { numerator, denominator: skip } })
    }

    /// One draw from the sequence, against the live clock.
    ///
    /// Each draw takes fresh readings of the milliseconds since the game
    /// started, so when the render comes its interpolation reflects time
    /// the host spent simulating ticks in the earlier draws of this poll,
    /// rather than a single timestamp cached when the poll began.
    pub fn next(&mut self, game_loop: &mut GameLoop) -> (r: Option<FrameAction>)
        ensures
            exists|elapsed: int, render_elapsed: int|
                {
                    &&& 0 <= elapsed <= usize::MAX - 1000
                    &&& 0 <= render_elapsed <= usize::MAX - 1000
                    &&& #[trigger] step_relates(
                        *old(game_loop),
                        *old(self),
                        elapsed,
                        render_elapsed,
                        *final(game_loop),
                        *final(self),
                        r,
                    )
                },
    {
        let elapsed_ms = game_loop.tick_count();
        let render_elapsed_ms = game_loop.tick_count();
        self.next_at(game_loop, elapsed_ms, render_elapsed_ms)
    }
}

impl GameLoopError {
    /// A short description of the configuration error, in words.
    pub fn message(&self) -> (m: &'static str)
        ensures
            *self == GameLoopError::BadTps ==> m@ == "Ticks per second must be >= 1"@,
            *self == GameLoopError::BadFrameSkip ==> m@ == "Max frame skip must be >= 1"@,
    {
        match self {
            GameLoopError::BadTps => "Ticks per second must be >= 1",
            GameLoopError::BadFrameSkip => "Max frame skip must be >= 1",
        }
    }
}

} // verus!
