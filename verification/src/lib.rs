//! A fixed-timestep game loop scheduler.
//!
//! A [`GameLoop`] is created with a target tick rate and a bound on catch-up
//! work. Once per iteration of the host's main loop, [`GameLoop::actions`]
//! yields a [`FrameActions`] sequence; draining it tells the host when to
//! advance the simulation by one tick and when to render, and with what
//! interpolation between the last and next tick boundary. Simulation thus
//! runs at a fixed rate while rendering runs as fast as the host polls, and
//! a slow host pays down at most a bounded number of ticks per poll before a
//! render is forced.

mod gameloop;
mod laws;

pub use self::gameloop::{FrameAction, FrameActions, GameLoop, GameLoopError, Interpolation};
pub use self::gameloop::{spec_step, step_relates};
pub use self::laws::{
    count_renders, count_ticks, lemma_caught_up_poll_renders_immediately,
    lemma_exhausted_after_render, lemma_poll_ends_in_single_render, lemma_poll_tick_count_bounded,
    spec_drain,
};
