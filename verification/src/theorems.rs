//! What holds of every frame and of every run of frames.

use crate::collision::CollisionEventView;
use crate::keyboard::{KeyCode, KeyboardStateView};
use crate::logic::{
    collision_actions, displacement, frame_actions, heading, high_score_after, hits, is_hit,
    next_state, ActionView, FrameView, MOVEMENT_SPEED,
};
use crate::state::GameStateView;
use crate::text::score_line;
use crate::timer::{fires_once_per_period, total};
use vstd::prelude::*;

verus! {

/// The state after the frames `frames`, played in order from `state`.
pub open spec fn after_frames(state: GameStateView, frames: Seq<FrameView>) -> GameStateView
    decreases frames.len(),
{
    if frames.len() == 0 {
        state
    } else {
        next_state(after_frames(state, frames.drop_last()), frames.last())
    }
}

/// The lengths of the frames `frames`, in order.
pub open spec fn deltas(frames: Seq<FrameView>) -> Seq<nat> {
    frames.map_values(|frame: FrameView| frame.delta_nanos)
}

/// `frame` with the key `key` taken out of the keys that just went down.
pub open spec fn without_fresh_key(frame: FrameView, key: KeyCode) -> FrameView {
    FrameView {
        keyboard_state: KeyboardStateView {
            just_pressed: frame.keyboard_state.just_pressed.remove(key),
            ..frame.keyboard_state
        },
        ..frame
    }
}

// ---------------------------------------------------------------------------
// Quit
// ---------------------------------------------------------------------------

/// Collisions never ask for an exit.
proof fn lemma_collisions_do_not_exit(
    score: nat,
    high_score: nat,
    events: Seq<CollisionEventView>,
)
    ensures
        !collision_actions(score, high_score, events).contains(ActionView::Exit),
    decreases events.len(),
{
    if events.len() > 0 {
        lemma_collisions_do_not_exit(score, high_score, events.drop_last());
    }
}

/// A frame asks for an exit exactly when the quit key went down in it, and
/// then the exit is the first thing it asks for.
pub proof fn exit_iff_quit_pressed(state: GameStateView, frame: FrameView, x: int, y: int)
    ensures
        frame_actions(state, frame, x, y).contains(ActionView::Exit)
            <==> frame.keyboard_state.just_pressed.contains(KeyCode::Q),
        frame.keyboard_state.just_pressed.contains(KeyCode::Q) ==> frame_actions(
            state,
            frame,
            x,
            y,
        )[0] == ActionView::Exit,
{
    lemma_collisions_do_not_exit(state.score, state.high_score, frame.collision_events);
    let actions = frame_actions(state, frame, x, y);
    if frame.keyboard_state.just_pressed.contains(KeyCode::Q) {
        assert(actions[0] == ActionView::Exit);
    }
}

/// Nothing else in a frame depends on the quit key: with the key taken out
/// of the frame the game ends in the same state, and the host is asked for
/// the same things but for the exit.
pub proof fn quit_changes_nothing_else(state: GameStateView, frame: FrameView, x: int, y: int)
    requires
        frame.keyboard_state.just_pressed.contains(KeyCode::Q),
    ensures
        next_state(state, frame) == next_state(state, without_fresh_key(frame, KeyCode::Q)),
        frame_actions(state, frame, x, y) == seq![ActionView::Exit] + frame_actions(
            state,
            without_fresh_key(frame, KeyCode::Q),
            x,
            y,
        ),
{
    let quiet = without_fresh_key(frame, KeyCode::Q);
    assert(frame_actions(state, frame, x, y) =~= seq![ActionView::Exit] + frame_actions(
        state,
        quiet,
        x,
        y,
    ));
}

// ---------------------------------------------------------------------------
// Score
// ---------------------------------------------------------------------------

/// Taking one event out of a queue takes away the point it earns, if any.
proof fn lemma_hits_without(events: Seq<CollisionEventView>, i: int)
    requires
        0 <= i < events.len(),
    ensures
        hits(events) == hits(events.remove(i)) + if is_hit(events[i]) {
            1nat
        } else {
            0nat
        },
    decreases events.len(),
{
    if i == events.len() - 1 {
        assert(events.remove(i) =~= events.drop_last());
    } else {
        lemma_hits_without(events.drop_last(), i);
        assert(events.remove(i).drop_last() =~= events.drop_last().remove(i));
        assert(events.remove(i).last() == events.last());
    }
}

/// The points a queue earns do not depend on the order of its events: two
/// queues that hold the same events, each as often as the other, earn the
/// same.
pub proof fn hits_ignore_order(first: Seq<CollisionEventView>, second: Seq<CollisionEventView>)
    requires
        first.to_multiset() == second.to_multiset(),
    ensures
        hits(first) == hits(second),
    decreases first.len(),
{
    broadcast use vstd::seq_lib::group_to_multiset_ensures;

    if first.len() == 0 {
        assert(second.len() == second.to_multiset().len() == first.to_multiset().len() == 0);
    } else {
        let event = first.last();
        assert(first =~= first.drop_last().push(event));
        assert(second.to_multiset().count(event) > 0);
        assert(second.contains(event));
        let i = choose|i: int| 0 <= i < second.len() && second[i] == event;
        assert(second.remove(i).to_multiset() =~= first.drop_last().to_multiset());
        hits_ignore_order(first.drop_last(), second.remove(i));
        lemma_hits_without(second, i);
    }
}

/// A frame without a reset adds to the score exactly the points its queue
/// earns, in whatever order the events stand in the queue.
pub proof fn score_grows_by_hits(state: GameStateView, frame: FrameView, shuffled: FrameView)
    requires
        !frame.keyboard_state.just_pressed.contains(KeyCode::R),
        shuffled == (FrameView { collision_events: shuffled.collision_events, ..frame }),
        shuffled.collision_events.to_multiset() == frame.collision_events.to_multiset(),
    ensures
        next_state(state, frame).score == state.score + hits(frame.collision_events),
        next_state(state, shuffled).score == next_state(state, frame).score,
        next_state(state, shuffled) == next_state(state, frame),
{
    hits_ignore_order(shuffled.collision_events, frame.collision_events);
}

/// A frame never lowers the high score, and moves it only to a score that
/// is strictly above it.
pub proof fn high_score_never_drops(state: GameStateView, frame: FrameView)
    ensures
        next_state(state, frame).high_score >= state.high_score,
        next_state(state, frame).high_score != state.high_score ==> {
            &&& hits(frame.collision_events) > 0
            &&& next_state(state, frame).high_score == state.score + hits(frame.collision_events)
            &&& state.score + hits(frame.collision_events) > state.high_score
        },
{
}

/// Over any run of frames the high score ends no lower than it began.
pub proof fn high_score_never_drops_over(state: GameStateView, frames: Seq<FrameView>)
    ensures
        after_frames(state, frames).high_score >= state.high_score,
    decreases frames.len(),
{
    if frames.len() > 0 {
        high_score_never_drops_over(state, frames.drop_last());
        high_score_never_drops(after_frames(state, frames.drop_last()), frames.last());
    }
}

/// Points are scored one at a time: the high score that `gained` points
/// leave is the one that one more point finds and, if the score then stands
/// above it, replaces.
pub proof fn high_score_follows_each_point(score: nat, high_score: nat, gained: nat)
    ensures
        high_score_after(score, high_score, gained + 1) == high_score_after(
            score + gained,
            high_score_after(score, high_score, gained),
            1,
        ),
{
}

/// The reset key sets the score to zero and touches nothing else: the high
/// score, the enemy counter and the timer end as they would without it, and
/// the host is asked for the same things and then to show the score line
/// for zero.
pub proof fn reset_clears_score_only(state: GameStateView, frame: FrameView, x: int, y: int)
    requires
        frame.keyboard_state.just_pressed.contains(KeyCode::R),
    ensures
        next_state(state, frame) == (GameStateView {
            score: 0,
            ..next_state(state, without_fresh_key(frame, KeyCode::R))
        }),
        frame_actions(state, frame, x, y) == frame_actions(
            state,
            without_fresh_key(frame, KeyCode::R),
            x,
            y,
        ) + seq![ActionView::SetScoreText { value: score_line(0) }],
{
    let kept = without_fresh_key(frame, KeyCode::R);
    assert(frame_actions(state, frame, x, y) =~= frame_actions(state, kept, x, y) + seq![
        ActionView::SetScoreText { value: score_line(0) },
    ]);
}

// ---------------------------------------------------------------------------
// Movement
// ---------------------------------------------------------------------------

/// The step does not depend on how time is cut into frames: with the same
/// keys held, two frames move the player as far as one frame of their
/// combined length.
pub proof fn movement_adds_over_time(keys: KeyboardStateView, first: nat, second: nat)
    ensures
        displacement(keys, first + second).0 == displacement(keys, first).0 + displacement(
            keys,
            second,
        ).0,
        displacement(keys, first + second).1 == displacement(keys, first).1 + displacement(
            keys,
            second,
        ).1,
{
    let (hx, hy) = heading(keys);
    let speed = MOVEMENT_SPEED as int;
    assert(hx * speed * (first + second) == hx * speed * first + hx * speed * second)
        by (nonlinear_arith);
    assert(hy * speed * (first + second) == hy * speed * first + hy * speed * second)
        by (nonlinear_arith);
}

/// The four directions add up: each held pair of keys moves the player by
/// the speed times the time in its own direction, whatever else is held.
pub proof fn movement_adds_over_directions(keys: KeyboardStateView, delta_nanos: nat)
    ensures
        displacement(keys, delta_nanos).0 == (if keys.pressed_any(
            seq![KeyCode::Right, KeyCode::D],
        ) {
            MOVEMENT_SPEED * delta_nanos
        } else {
            0
        }) - (if keys.pressed_any(seq![KeyCode::Left, KeyCode::A]) {
            MOVEMENT_SPEED * delta_nanos
        } else {
            0
        }),
        displacement(keys, delta_nanos).1 == (if keys.pressed_any(seq![KeyCode::Up, KeyCode::W]) {
            MOVEMENT_SPEED * delta_nanos
        } else {
            0
        }) - (if keys.pressed_any(seq![KeyCode::Down, KeyCode::S]) {
            MOVEMENT_SPEED * delta_nanos
        } else {
            0
        }),
{
    let (hx, hy) = heading(keys);
    let reach = MOVEMENT_SPEED as int * delta_nanos as int;
    assert(hx * (MOVEMENT_SPEED as int) * (delta_nanos as int) == hx * reach && hy * (
    MOVEMENT_SPEED as int) * (delta_nanos as int) == hy * reach) by (nonlinear_arith)
        requires
            reach == MOVEMENT_SPEED as int * delta_nanos as int,
    ;
    assert(hx * reach == (if hx == 1 {
        reach
    } else if hx == 0 {
        0
    } else {
        -reach
    }) && hy * reach == (if hy == 1 {
        reach
    } else if hy == 0 {
        0
    } else {
        -reach
    })) by (nonlinear_arith)
        requires
            -1 <= hx <= 1,
            -1 <= hy <= 1,
    ;
}

// ---------------------------------------------------------------------------
// Spawning
// ---------------------------------------------------------------------------

/// Over a run of frames the spawn timer is ticked once per frame with the
/// frame's length, and the enemy counter moves on by one for each tick on
/// which the timer reports that it just finished.
pub proof fn spawns_follow_timer(state: GameStateView, frames: Seq<FrameView>)
    ensures
        after_frames(state, frames).spawn_timer == state.spawn_timer.run(deltas(frames)),
        after_frames(state, frames).enemy_index == state.enemy_index
            + state.spawn_timer.fires_over(deltas(frames)),
    decreases frames.len(),
{
    if frames.len() > 0 {
        spawns_follow_timer(state, frames.drop_last());
        assert(deltas(frames).drop_last() =~= deltas(frames.drop_last()));
        assert(deltas(frames).last() == frames.last().delta_nanos);
    }
}

/// While no frame is longer than the spawn period, the enemies spawned over
/// a run of frames number exactly the full periods contained in the time on
/// the timer at the start plus the time the frames took.
pub proof fn one_spawn_per_period(state: GameStateView, frames: Seq<FrameView>)
    requires
        state.spawn_timer.wf(),
        forall|i: int| 0 <= i < frames.len() ==> frames[i].delta_nanos <= state.spawn_timer.period,
    ensures
        after_frames(state, frames).enemy_index == state.enemy_index + (state.spawn_timer.elapsed
            + total(deltas(frames))) / state.spawn_timer.period,
{
    spawns_follow_timer(state, frames);
    fires_once_per_period(state.spawn_timer, deltas(frames));
}

} // verus!
