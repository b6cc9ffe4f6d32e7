use vstd::prelude::*;

use crate::gameloop::{spec_step, FrameAction, FrameActions, GameLoop};

verus! {

/// The actions a host collects by drawing from one poll's sequence until it
/// yields nothing, given the pairs of clock readings consumed by each draw:
/// `readings[i].0` feeds the tick test of draw `i` and `readings[i].1` its
/// interpolation, as in `spec_step`.
pub open spec fn spec_drain(
    skip: int,
    max: int,
    next: int,
    loops: int,
    rendered: bool,
    readings: Seq<(int, int)>,
) -> Seq<FrameAction>
    decreases readings.len(),
{
    if readings.len() == 0 {
        Seq::<FrameAction>::empty()
    } else {
        let s = spec_step(skip, max, next, loops, rendered, readings[0].0, readings[0].1);
        match s.3 {
            Option::None => Seq::<FrameAction>::empty(),
            Option::Some(a) => seq![a] + spec_drain(skip, max, s.0, s.1, s.2, readings.drop_first()),
        }
    }
}

/// How many of the actions are ticks.
pub open spec fn count_ticks(s: Seq<FrameAction>) -> nat
    decreases s.len(),
{
    if s.len() == 0 {
        0nat
    } else {
        (if s[0] is Tick {
            1nat
        } else {
            0nat
        }) + count_ticks(s.drop_first())
    }
}

/// How many of the actions are renders.
pub open spec fn count_renders(s: Seq<FrameAction>) -> nat
    decreases s.len(),
{
    if s.len() == 0 {
        0nat
    } else {
        (if s[0] is Render {
            1nat
        } else {
            0nat
        }) + count_renders(s.drop_first())
    }
}

/// Law: once the render action has been drawn the sequence is exhausted.
/// Further draws yield nothing, however many readings follow and however
/// much time passes before them.
pub proof fn lemma_exhausted_after_render(
    skip: int,
    max: int,
    next: int,
    loops: int,
    readings: Seq<(int, int)>,
)
    ensures
        spec_drain(skip, max, next, loops, true, readings) == Seq::<FrameAction>::empty(),
{
}

/// The shape of a full drain from any mid-poll state that has not rendered
/// yet: some ticks, then exactly one render, then nothing.
proof fn lemma_drain_shape(
    skip: int,
    max: int,
    next: int,
    loops: int,
    readings: Seq<(int, int)>,
)
    requires
        0 <= loops <= max,
        readings.len() >= max - loops + 1,
    ensures
        ({
            let d = spec_drain(skip, max, next, loops, false, readings);
            &&& 1 <= d.len() <= max - loops + 1
            &&& d[d.len() - 1] is Render
            &&& forall|i: int| 0 <= i < d.len() - 1 ==> d[i] is Tick
            &&& count_renders(d) == 1
            &&& count_ticks(d) == d.len() - 1
        }),
    decreases readings.len(),
{
    let s = spec_step(skip, max, next, loops, false, readings[0].0, readings[0].1);
    let d = spec_drain(skip, max, next, loops, false, readings);
    if readings[0].0 > next && loops < max {
        let d2 = spec_drain(skip, max, s.0, s.1, s.2, readings.drop_first());
        lemma_drain_shape(skip, max, s.0, s.1, readings.drop_first());
        assert(d == seq![FrameAction::Tick] + d2);
        assert(d.drop_first() =~= d2);
        assert(d.len() == 1 + d2.len());
        assert(d[0] is Tick);
        assert(forall|i: int| 1 <= i < d.len() ==> d[i] == d2[i - 1]);
        assert(count_ticks(d) == 1 + count_ticks(d2));
        assert(count_renders(d) == count_renders(d2));
    } else {
        let a = s.3->Some_0;
        lemma_exhausted_after_render(skip, max, s.0, s.1, readings.drop_first());
        assert(d =~= seq![a]);
        assert(d.drop_first() =~= Seq::<FrameAction>::empty());
        assert(d.len() == 1);
        assert(a is Render);
        assert(count_renders(Seq::<FrameAction>::empty()) == 0);
        assert(count_ticks(Seq::<FrameAction>::empty()) == 0);
        assert(count_renders(d) == 1);
        assert(count_ticks(d) == 0);
    }
}

/// A bound on the ticks of any drain, full or cut short, from any mid-poll
/// state: at most the catch-up budget that is still unspent.
proof fn lemma_drain_tick_bound(
    skip: int,
    max: int,
    next: int,
    loops: int,
    readings: Seq<(int, int)>,
)
    requires
        0 <= loops <= max,
    ensures
        count_ticks(spec_drain(skip, max, next, loops, false, readings)) <= max - loops,
    decreases readings.len(),
{
    if readings.len() != 0 {
        let s = spec_step(skip, max, next, loops, false, readings[0].0, readings[0].1);
        let d = spec_drain(skip, max, next, loops, false, readings);
        if readings[0].0 > next && loops < max {
            let d2 = spec_drain(skip, max, s.0, s.1, s.2, readings.drop_first());
            lemma_drain_tick_bound(skip, max, s.0, s.1, readings.drop_first());
            assert(d == seq![FrameAction::Tick] + d2);
            assert(d.drop_first() =~= d2);
            assert(count_ticks(d) == 1 + count_ticks(d2));
        } else {
            let a = s.3->Some_0;
            lemma_exhausted_after_render(skip, max, s.0, s.1, readings.drop_first());
            assert(d =~= seq![a]);
            assert(d.drop_first() =~= Seq::<FrameAction>::empty());
            assert(a is Render);
            assert(count_ticks(Seq::<FrameAction>::empty()) == 0);
            assert(count_ticks(d) == 0);
        }
    }
}

/// Law: draining one poll to exhaustion always yields a sequence ending in
/// exactly one render action — never zero, never more than one — and every
/// action before it is a tick. `readings` must offer at least one pair of
/// clock readings more than the catch-up bound, so that the drain is not
/// cut short; whatever the readings hold, the shape is the same.
pub proof fn lemma_poll_ends_in_single_render(
    gl: GameLoop,
    fa: FrameActions,
    readings: Seq<(int, int)>,
)
    requires
        fa.ticks_taken() == 0,
        !fa.rendered(),
        readings.len() > gl.catchup_bound(),
    ensures
        ({
            let d = spec_drain(
                gl.tick_interval() as int,
                gl.catchup_bound() as int,
                gl.deadline() as int,
                fa.ticks_taken() as int,
                fa.rendered(),
                readings,
            );
            &&& d.len() >= 1
            &&& d[d.len() - 1] is Render
            &&& count_renders(d) == 1
            &&& forall|i: int| 0 <= i < d.len() - 1 ==> d[i] is Tick
        }),
{
    lemma_drain_shape(
        gl.tick_interval() as int,
        gl.catchup_bound() as int,
        gl.deadline() as int,
        0,
        readings,
    );
}

/// Law: the number of tick actions in a single poll lies between zero and
/// the catch-up bound, however many draws the host makes and whatever the
/// clock readings are.
pub proof fn lemma_poll_tick_count_bounded(
    gl: GameLoop,
    fa: FrameActions,
    readings: Seq<(int, int)>,
)
    requires
        fa.ticks_taken() == 0,
        !fa.rendered(),
    ensures
        count_ticks(
            spec_drain(
                gl.tick_interval() as int,
                gl.catchup_bound() as int,
                gl.deadline() as int,
                fa.ticks_taken() as int,
                fa.rendered(),
                readings,
            ),
        ) <= gl.catchup_bound(),
{
    lemma_drain_tick_bound(
        gl.tick_interval() as int,
        gl.catchup_bound() as int,
        gl.deadline() as int,
        0,
        readings,
    );
}

/// Law: a poll whose first clock reading is at or before the deadline —
/// no time has passed since a poll that drained fully and was not cut
/// short by the catch-up bound — yields zero ticks and one render.
pub proof fn lemma_caught_up_poll_renders_immediately(
    gl: GameLoop,
    fa: FrameActions,
    readings: Seq<(int, int)>,
)
    requires
        fa.ticks_taken() == 0,
        !fa.rendered(),
        readings.len() >= 1,
        readings[0].0 <= gl.deadline(),
    ensures
        ({
            let d = spec_drain(
                gl.tick_interval() as int,
                gl.catchup_bound() as int,
                gl.deadline() as int,
                fa.ticks_taken() as int,
                fa.rendered(),
                readings,
            );
            &&& d.len() == 1
            &&& d[0] is Render
            &&& count_ticks(d) == 0
        }),
{
    let skip = gl.tick_interval() as int;
    let max = gl.catchup_bound() as int;
    let next = gl.deadline() as int;
    let s = spec_step(skip, max, next, 0, false, readings[0].0, readings[0].1);
    let a = s.3->Some_0;
    let d = spec_drain(skip, max, next, 0, false, readings);
    lemma_exhausted_after_render(skip, max, s.0, s.1, readings.drop_first());
    assert(d =~= seq![a]);
    assert(d.drop_first() =~= Seq::<FrameAction>::empty());
    assert(a is Render);
    assert(d.len() == 1);
    assert(count_ticks(Seq::<FrameAction>::empty()) == 0);
    assert(count_ticks(d) == 0);
}

} // verus!
