//! One frame of the game: from what the host observed and the state the game
//! was in, to the state it is in next and what the host has to do.

use crate::collision::{
    starts_with, CollisionEvent, CollisionEventView, CollisionPair, CollisionPairView,
    CollisionState,
};
use crate::keyboard::{KeyCode, KeyboardState, KeyboardStateView};
use crate::state::{GameState, GameStateView};
use crate::text::{
    enemy_label, enemy_name, high_score_line, high_score_text, player_name, score_line,
    score_text,
};
use rand::Rng;
use vstd::prelude::*;
use vstd::string::*;

verus! {

/// Lengths are whole numbers of this many parts per world unit, so that a
/// speed in units per second times a time in nanoseconds is exact.
pub const UNIT: i128 = 1_000_000_000;

/// Distance the player covers per second of held input, in world units.
pub const MOVEMENT_SPEED: i128 = 100;

/// Enemies appear at `x` with `-SPAWN_HALF_WIDTH <= x < SPAWN_HALF_WIDTH`.
pub const SPAWN_HALF_WIDTH: i128 = 550_000_000_000;

/// Enemies appear at `y` with `-SPAWN_HALF_HEIGHT <= y < SPAWN_HALF_HEIGHT`.
pub const SPAWN_HALF_HEIGHT: i128 = 325_000_000_000;

/// What the host observed in one frame.
#[derive(Clone, Debug)]
pub struct Frame {
    pub keyboard_state: KeyboardState,
    /// The collisions queued for this frame, oldest first.
    pub collision_events: Vec<CollisionEvent>,
    /// Time since the frame before, in nanoseconds.
    pub delta_nanos: u64,
}

/// A [`Frame`] as mathematical values.
pub struct FrameView {
    pub keyboard_state: KeyboardStateView,
    pub collision_events: Seq<CollisionEventView>,
    pub delta_nanos: nat,
}

impl View for Frame {
    type V = FrameView;

    open spec fn view(&self) -> FrameView {
        FrameView {
            keyboard_state: self.keyboard_state@,
            collision_events: self.collision_events.deep_view(),
            delta_nanos: self.delta_nanos as nat,
        }
    }
}

impl DeepView for Frame {
    type V = FrameView;

    open spec fn deep_view(&self) -> FrameView {
        self@
    }
}

/// One thing the host has to do after a frame. Lengths are in parts of
/// [`UNIT`].
#[derive(Clone, Debug, PartialEq, Eq)]
pub enum Action {
    /// Stop the game once this frame is done.
    Exit,
    /// Take the sprite with this label out of the world.
    RemoveSprite { label: String },
    /// Show `value` on the score line.
    SetScoreText { value: String },
    /// Show `value` on the high score line.
    SetHighScoreText { value: String },
    /// Play the sound of a collected enemy once.
    PlaySfx,
    /// Shift the player's sprite by `dx` and `dy`.
    MovePlayer { dx: i128, dy: i128 },
    /// Add an enemy sprite with this label at `x`, `y`, with collisions on.
    SpawnEnemy { label: String, x: i128, y: i128 },
}

/// An [`Action`] as mathematical values.
pub enum ActionView {
    Exit,
    RemoveSprite { label: Seq<char> },
    SetScoreText { value: Seq<char> },
    SetHighScoreText { value: Seq<char> },
    PlaySfx,
    MovePlayer { dx: int, dy: int },
    SpawnEnemy { label: Seq<char>, x: int, y: int },
}

impl View for Action {
    type V = ActionView;

    open spec fn view(&self) -> ActionView {
        match self {
            Action::Exit => ActionView::Exit,
            Action::RemoveSprite { label } => ActionView::RemoveSprite { label: label@ },
            Action::SetScoreText { value } => ActionView::SetScoreText { value: value@ },
            Action::SetHighScoreText { value } => ActionView::SetHighScoreText { value: value@ },
            Action::PlaySfx => ActionView::PlaySfx,
            Action::MovePlayer { dx, dy } => ActionView::MovePlayer {
                dx: *dx as int,
                dy: *dy as int,
            },
            Action::SpawnEnemy { label, x, y } => ActionView::SpawnEnemy {
                label: label@,
                x: *x as int,
                y: *y as int,
            },
        }
    }
}

impl DeepView for Action {
    type V = ActionView;

    open spec fn deep_view(&self) -> ActionView {
        self@
    }
}

// ---------------------------------------------------------------------------
// Movement
// ---------------------------------------------------------------------------

/// `+1`, `-1` or `0`: the direction along one axis when the keys for its
/// positive and its negative direction are held or not.
pub open spec fn axis(positive: bool, negative: bool) -> int {
    (if positive { 1int } else { 0int }) - (if negative { 1int } else { 0int })
}

/// The direction the held keys ask for: right and left along `x`, up and
/// down along `y`, each by its arrow key or by its letter.
pub open spec fn heading(keys: KeyboardStateView) -> (int, int) {
    (
        axis(
            keys.pressed_any(seq![KeyCode::Right, KeyCode::D]),
            keys.pressed_any(seq![KeyCode::Left, KeyCode::A]),
        ),
        axis(
            keys.pressed_any(seq![KeyCode::Up, KeyCode::W]),
            keys.pressed_any(seq![KeyCode::Down, KeyCode::S]),
        ),
    )
}

/// How far the player moves in a frame of `delta_nanos`: the speed times the
/// time, along each axis of the heading.
pub open spec fn displacement(keys: KeyboardStateView, delta_nanos: nat) -> (int, int) {
    (
        heading(keys).0 * MOVEMENT_SPEED as int * delta_nanos as int,
        heading(keys).1 * MOVEMENT_SPEED as int * delta_nanos as int,
    )
}

/// True if the key `arrow` or the key `letter` is held.
fn either_held(keyboard_state: &KeyboardState, arrow: KeyCode, letter: KeyCode) -> (held: bool)
    ensures
        held == keyboard_state@.pressed_any(seq![arrow, letter]),
{
    let keys = [arrow, letter];
    assert(keys@ =~= seq![arrow, letter]);
    keyboard_state.pressed_any(&keys)
}

/// The player's step for this frame.
pub fn movement(keyboard_state: &KeyboardState, delta_nanos: u64) -> (step: Action)
    ensures
        step@ == (ActionView::MovePlayer {
            dx: displacement(keyboard_state@, delta_nanos as nat).0,
            dy: displacement(keyboard_state@, delta_nanos as nat).1,
        }),
{
    let reach: i128 = MOVEMENT_SPEED * (delta_nanos as i128);
    let mut dx: i128 = 0;
    let mut dy: i128 = 0;
    if either_held(keyboard_state, KeyCode::Up, KeyCode::W) {
        dy = dy + reach;
    }
    if either_held(keyboard_state, KeyCode::Down, KeyCode::S) {
        dy = dy - reach;
    }
    if either_held(keyboard_state, KeyCode::Left, KeyCode::A) {
        dx = dx - reach;
    }
    if either_held(keyboard_state, KeyCode::Right, KeyCode::D) {
        dx = dx + reach;
    }
    proof {
        let (hx, hy) = heading(keyboard_state@);
        assert(dx == hx * reach && dy == hy * reach) by (nonlinear_arith)
            requires
                hx == 1 && dx == reach || hx == 0 && dx == 0 || hx == -1 && dx == -reach,
                hy == 1 && dy == reach || hy == 0 && dy == 0 || hy == -1 && dy == -reach,
        ;
        assert(hx * MOVEMENT_SPEED as int * delta_nanos as int == hx * reach) by (nonlinear_arith)
            requires
                reach == MOVEMENT_SPEED as int * delta_nanos as int,
        ;
        assert(hy * MOVEMENT_SPEED as int * delta_nanos as int == hy * reach) by (nonlinear_arith)
            requires
                reach == MOVEMENT_SPEED as int * delta_nanos as int,
        ;
    }
    Action::MovePlayer { dx, dy }
}

// ---------------------------------------------------------------------------
// Collisions
// ---------------------------------------------------------------------------

/// The event earns a point: an overlap begins and exactly one of the two
/// sprites carries a label that begins with the player's.
pub open spec fn is_hit(event: CollisionEventView) -> bool {
    event.state == CollisionState::Begin && event.pair.one_starts_with(player_name())
}

/// How many of `events` earn a point.
pub open spec fn hits(events: Seq<CollisionEventView>) -> nat
    decreases events.len(),
{
    if events.len() == 0 {
        0
    } else {
        hits(events.drop_last()) + if is_hit(events.last()) {
            1nat
        } else {
            0nat
        }
    }
}

/// The high score once `gained` points have been added to `score` one by
/// one: it moves only when the score has climbed past it.
pub open spec fn high_score_after(score: nat, high_score: nat, gained: nat) -> nat {
    if gained > 0 && score + gained > high_score {
        score + gained
    } else {
        high_score
    }
}

/// One removal for each label of `pair` that is not the player's, first
/// label first.
pub open spec fn removals(pair: CollisionPairView) -> Seq<ActionView> {
    (if pair.0 != player_name() {
        seq![ActionView::RemoveSprite { label: pair.0 }]
    } else {
        Seq::<ActionView>::empty()
    }) + (if pair.1 != player_name() {
        seq![ActionView::RemoveSprite { label: pair.1 }]
    } else {
        Seq::<ActionView>::empty()
    })
}

/// What the host does for one point earned on `pair` while the board shows
/// `score` and `high_score`: remove what was hit, show the new score, show
/// the new high score if the score passed it, and play the sound.
pub open spec fn hit_actions(score: nat, high_score: nat, pair: CollisionPairView) -> Seq<
    ActionView,
> {
    removals(pair) + seq![ActionView::SetScoreText { value: score_line(score + 1) }] + (if score
        + 1 > high_score {
        seq![ActionView::SetHighScoreText { value: high_score_line(score + 1) }]
    } else {
        Seq::<ActionView>::empty()
    }) + seq![ActionView::PlaySfx]
}

/// What the host does for `events`, taken in order from a board that shows
/// `score` and `high_score`. Events that earn no point ask for nothing.
pub open spec fn collision_actions(
    score: nat,
    high_score: nat,
    events: Seq<CollisionEventView>,
) -> Seq<ActionView>
    decreases events.len(),
{
    if events.len() == 0 {
        Seq::<ActionView>::empty()
    } else {
        let before = events.drop_last();
        collision_actions(score, high_score, before) + if is_hit(events.last()) {
            hit_actions(
                score + hits(before),
                high_score_after(score, high_score, hits(before)),
                events.last().pair,
            )
        } else {
            Seq::<ActionView>::empty()
        }
    }
}

/// True if `label` is the player's label.
fn is_player(label: &str) -> (same: bool)
    ensures
        same == (label@ == player_name()),
{
    let player = "player";
    let same = label.unicode_len() == player.unicode_len() && starts_with(label, player);
    proof {
        if label@.len() == player@.len() {
            assert(label@.subrange(0, player@.len() as int) =~= label@);
        }
    }
    same
}

/// True if `event` earns a point.
pub fn earns_point(event: &CollisionEvent) -> (hit: bool)
    ensures
        hit == is_hit(event@),
{
    event.state.is_begin() && event.pair.one_starts_with("player")
}

/// Scores one point for a collision of the player with `pair`.
pub fn score_hit(pair: &CollisionPair, game_state: &mut GameState, actions: &mut Vec<Action>)
    requires
        old(game_state).score < u32::MAX,
    ensures
        final(game_state)@ == (GameStateView {
            score: old(game_state)@.score + 1,
            high_score: high_score_after(old(game_state)@.score, old(game_state)@.high_score, 1),
            ..old(game_state)@
        }),
        final(actions).deep_view() == old(actions).deep_view() + hit_actions(
            old(game_state)@.score,
            old(game_state)@.high_score,
            pair@,
        ),
{
    let ghost before = actions.deep_view();
    let ghost first = if pair.0@ != player_name() {
        seq![ActionView::RemoveSprite { label: pair.0@ }]
    } else {
        Seq::<ActionView>::empty()
    };
    if !is_player(pair.0.as_str()) {
        actions.push(Action::RemoveSprite { label: pair.0.clone() });
    }
    assert(actions.deep_view() =~= before + first);
    if !is_player(pair.1.as_str()) {
        actions.push(Action::RemoveSprite { label: pair.1.clone() });
    }
    assert(actions.deep_view() =~= before + removals(pair@));

    game_state.score = game_state.score + 1;
    actions.push(Action::SetScoreText { value: score_text(game_state.score) });
    if game_state.score > game_state.high_score {
        game_state.high_score = game_state.score;
        actions.push(Action::SetHighScoreText { value: high_score_text(game_state.score) });
    }
    actions.push(Action::PlaySfx);
    assert(actions.deep_view() =~= before + hit_actions(
        old(game_state)@.score,
        old(game_state)@.high_score,
        pair@,
    ));
}

/// No stretch of the queue earns more points than the whole queue.
proof fn lemma_hits_of_prefix(events: Seq<CollisionEventView>, n: int)
    requires
        0 <= n <= events.len(),
    ensures
        hits(events.take(n)) <= hits(events),
    decreases events.len() - n,
{
    if n == events.len() {
        assert(events.take(n) =~= events);
    } else {
        lemma_hits_of_prefix(events, n + 1);
        assert(events.take(n + 1).drop_last() =~= events.take(n));
    }
}

/// Goes through the queued collisions in order and scores each one that
/// earns a point.
pub fn resolve_collisions(events: &Vec<CollisionEvent>, game_state: &mut GameState) -> (actions:
    Vec<Action>)
    requires
        old(game_state).score + hits(events.deep_view()) <= u32::MAX,
    ensures
        final(game_state)@ == (GameStateView {
            score: old(game_state)@.score + hits(events.deep_view()),
            high_score: high_score_after(
                old(game_state)@.score,
                old(game_state)@.high_score,
                hits(events.deep_view()),
            ),
            ..old(game_state)@
        }),
        actions.deep_view() == collision_actions(
            old(game_state)@.score,
            old(game_state)@.high_score,
            events.deep_view(),
        ),
{
    let ghost queue = events.deep_view();
    let ghost start = game_state@;
    let mut actions: Vec<Action> = Vec::new();
    assert(actions.deep_view() =~= Seq::<ActionView>::empty());
    assert(queue.take(0) =~= Seq::<CollisionEventView>::empty());
    let mut i: usize = 0;
    while i < events.len()
        invariant
            i <= events.len(),
            queue == events.deep_view(),
            start.score + hits(queue) <= u32::MAX,
            game_state@ == (GameStateView {
                score: start.score + hits(queue.take(i as int)),
                high_score: high_score_after(
                    start.score,
                    start.high_score,
                    hits(queue.take(i as int)),
                ),
                ..start
            }),
            actions.deep_view() == collision_actions(
                start.score,
                start.high_score,
                queue.take(i as int),
            ),
        decreases events.len() - i,
    {
        proof {
            lemma_hits_of_prefix(queue, i as int + 1);
            assert(queue.take(i as int + 1).drop_last() =~= queue.take(i as int));
            assert(queue.take(i as int + 1).last() == events[i as int]@);
        }
        if earns_point(&events[i]) {
            score_hit(&events[i].pair, game_state, &mut actions);
        }
        i += 1;
    }
    assert(queue.take(i as int) =~= queue);
    actions
}

// ---------------------------------------------------------------------------
// Spawning and reset
// ---------------------------------------------------------------------------

/// The point lies in the rectangle in which enemies appear.
pub open spec fn in_spawn_area(x: int, y: int) -> bool {
    &&& -SPAWN_HALF_WIDTH <= x < SPAWN_HALF_WIDTH
    &&& -SPAWN_HALF_HEIGHT <= y < SPAWN_HALF_HEIGHT
}

/// Calls `rand::Rng::gen_range` on `rand::thread_rng()` with the range
/// `low..high`. Trusted: the number that comes back lies in that range, the
/// lower end included and the upper end not. The call panics on an empty
/// range, which the precondition rules out. Nothing is claimed about which
/// number is drawn.
#[verifier::external_body]
fn random_in_range(low: i128, high: i128) -> (drawn: i128)
    requires
        low < high,
    ensures
        low <= drawn < high,
{
    rand::thread_rng().gen_range(low..high)
}

/// A point of the spawn rectangle, drawn at random for each axis.
pub fn random_spawn_point() -> (point: (i128, i128))
    ensures
        in_spawn_area(point.0 as int, point.1 as int),
{
    let x = random_in_range(-SPAWN_HALF_WIDTH, SPAWN_HALF_WIDTH);
    let y = random_in_range(-SPAWN_HALF_HEIGHT, SPAWN_HALF_HEIGHT);
    (x, y)
}

/// Names the next enemy after the counter, places it at `x`, `y` and moves
/// the counter on.
pub fn spawn_enemy(game_state: &mut GameState, x: i128, y: i128) -> (spawn: Action)
    requires
        old(game_state).enemy_index < i32::MAX,
    ensures
        final(game_state)@ == (GameStateView {
            enemy_index: old(game_state)@.enemy_index + 1,
            ..old(game_state)@
        }),
        spawn@ == (ActionView::SpawnEnemy {
            label: enemy_name(old(game_state)@.enemy_index),
            x: x as int,
            y: y as int,
        }),
{
    let label = enemy_label(game_state.enemy_index);
    game_state.enemy_index = game_state.enemy_index + 1;
    Action::SpawnEnemy { label, x, y }
}

/// Sets the score back to zero and leaves the high score alone.
pub fn reset_score(game_state: &mut GameState) -> (shown: Action)
    ensures
        final(game_state)@ == (GameStateView { score: 0, ..old(game_state)@ }),
        shown@ == (ActionView::SetScoreText { value: score_line(0) }),
{
    game_state.score = 0;
    Action::SetScoreText { value: score_text(0) }
}

// ---------------------------------------------------------------------------
// The frame
// ---------------------------------------------------------------------------

/// The state after a frame. The score is counted up by the collisions before
/// the reset key is looked at, so a reset in the same frame wins over the
/// points but not over a high score they reached.
pub open spec fn next_state(state: GameStateView, frame: FrameView) -> GameStateView {
    let gained = hits(frame.collision_events);
    let timer = state.spawn_timer.tick(frame.delta_nanos);
    GameStateView {
        high_score: high_score_after(state.score, state.high_score, gained),
        score: if frame.keyboard_state.just_pressed.contains(KeyCode::R) {
            0
        } else {
            state.score + gained
        },
        enemy_index: if timer.just_finished() {
            state.enemy_index + 1
        } else {
            state.enemy_index
        },
        spawn_timer: timer,
    }
}

/// What the host has to do after a frame, in order, if an enemy that spawns
/// in it is placed at `x`, `y`: exit if the quit key went down, then the
/// collisions, the player's step, the spawn if the timer completed a cycle,
/// and last the score line of a reset.
pub open spec fn frame_actions(state: GameStateView, frame: FrameView, x: int, y: int) -> Seq<
    ActionView,
> {
    (if frame.keyboard_state.just_pressed.contains(KeyCode::Q) {
        seq![ActionView::Exit]
    } else {
        Seq::<ActionView>::empty()
    }) + collision_actions(state.score, state.high_score, frame.collision_events) + seq![
        ActionView::MovePlayer {
            dx: displacement(frame.keyboard_state, frame.delta_nanos).0,
            dy: displacement(frame.keyboard_state, frame.delta_nanos).1,
        },
    ] + (if state.spawn_timer.tick(frame.delta_nanos).just_finished() {
        seq![ActionView::SpawnEnemy { label: enemy_name(state.enemy_index), x, y }]
    } else {
        Seq::<ActionView>::empty()
    }) + (if frame.keyboard_state.just_pressed.contains(KeyCode::R) {
        seq![ActionView::SetScoreText { value: score_line(0) }]
    } else {
        Seq::<ActionView>::empty()
    })
}

/// The condition under which [`game_logic`] runs `frame` from `state`: the
/// score has room for the points the frame earns, and the enemy counter has
/// room for one more if the frame spawns.
pub open spec fn frame_fits(state: GameStateView, frame: FrameView) -> bool {
    &&& state.score + hits(frame.collision_events) <= u32::MAX
    &&& state.spawn_timer.tick(frame.delta_nanos).just_finished() ==> state.enemy_index
        < i32::MAX
}

/// Counts the events of the queue that earn a point.
pub fn count_hits(events: &Vec<CollisionEvent>) -> (count: usize)
    ensures
        count == hits(events.deep_view()),
{
    let ghost queue = events.deep_view();
    let mut count: usize = 0;
    let mut i: usize = 0;
    assert(queue.take(0) =~= Seq::<CollisionEventView>::empty());
    while i < events.len()
        invariant
            i <= events.len(),
            queue == events.deep_view(),
            count == hits(queue.take(i as int)),
            count <= i,
        decreases events.len() - i,
    {
        proof {
            assert(queue.take(i as int + 1).drop_last() =~= queue.take(i as int));
            assert(queue.take(i as int + 1).last() == events[i as int]@);
        }
        if earns_point(&events[i]) {
            count += 1;
        }
        i += 1;
    }
    assert(queue.take(i as int) =~= queue);
    count
}

/// Tells whether [`game_logic`] can run `frame` from `game_state`.
pub fn can_run(frame: &Frame, game_state: &GameState) -> (fits: bool)
    ensures
        fits == frame_fits(game_state@, frame@),
{
    let gained = count_hits(&frame.collision_events);
    let mut timer = game_state.spawn_timer;
    timer.tick(frame.delta_nanos);
    let room = (u32::MAX - game_state.score) as usize;
    gained <= room && (!timer.just_finished() || game_state.enemy_index < i32::MAX)
}

/// Runs the game for one frame: updates `game_state` and returns what the
/// host has to carry out, in order. The place of a spawned enemy is drawn at
/// random inside the spawn rectangle.
pub fn game_logic(frame: Frame, game_state: &mut GameState) -> (actions: Vec<Action>)
    requires
        frame_fits(old(game_state)@, frame@),
    ensures
        final(game_state)@ == next_state(old(game_state)@, frame@),
        exists|x: int, y: int|
            in_spawn_area(x, y) && #[trigger] frame_actions(old(game_state)@, frame@, x, y)
                == actions.deep_view(),
{
    let ghost start = game_state@;
    let mut actions: Vec<Action> = Vec::new();
    if frame.keyboard_state.just_pressed(KeyCode::Q) {
        actions.push(Action::Exit);
    }
    let ghost exit = actions.deep_view();

    let mut scored = resolve_collisions(&frame.collision_events, game_state);
    let ghost collisions = scored.deep_view();
    actions.append(&mut scored);
    assert(actions.deep_view() =~= exit + collisions);

    let step = movement(&frame.keyboard_state, frame.delta_nanos);
    let ghost moved = seq![step@];
    actions.push(step);
    assert(actions.deep_view() =~= exit + collisions + moved);

    let ghost mut place: (int, int) = (0, 0);
    game_state.spawn_timer.tick(frame.delta_nanos);
    if game_state.spawn_timer.just_finished() {
        let (x, y) = random_spawn_point();
        proof {
            place = (x as int, y as int);
        }
        let spawn = spawn_enemy(game_state, x, y);
        actions.push(spawn);
    }
    let ghost spawned = if start.spawn_timer.tick(frame@.delta_nanos).just_finished() {
        seq![ActionView::SpawnEnemy { label: enemy_name(start.enemy_index), x: place.0, y: place.1 }]
    } else {
        Seq::<ActionView>::empty()
    };
    assert(actions.deep_view() =~= exit + collisions + moved + spawned);

    if frame.keyboard_state.just_pressed(KeyCode::R) {
        let shown = reset_score(game_state);
        actions.push(shown);
    }
    assert(actions.deep_view() =~= frame_actions(start, frame@, place.0, place.1));
    assert(in_spawn_area(place.0, place.1));
    actions
}

} // verus!
