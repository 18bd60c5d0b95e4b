//! The rules of the game as mathematics.
//!
//! Every function here is a spec function over [`GameView`], the state of a
//! match as plain integers (lengths, times and speeds in millionths). The
//! executable engine in [`crate::game`] is proved to compute exactly these
//! functions, and the laws at the end of the file are proved of them.

use crate::ai::{
    ai_anchor, ai_initial, ai_observed, ai_resized, ai_tick, ai_wf, centered_top, AiView,
    PADDLE_HEIGHT, PADDLE_WIDTH,
};
use crate::audiosystem::{sfx, SoundHandle, SoundType};
use crate::fixed::{clamp_between, lemma_trunc_div_bounds, trunc_div, SCALE};
use crate::gamestate::GameState;
use crate::input::{stick_down, stick_up, PlayerInput};
use crate::vectorhelper::{lemma_normalized_bounds, vec_normalized, vec_sub, Vec2};
use vstd::prelude::*;

verus! {

/// Speed of the ball: 3000 pixels per second at a square viewport.
pub const BALL_SPEED: i64 = 3_000_000_000;

/// Radius of the ball: 10 pixels.
pub const BALL_RADIUS: i64 = 10_000_000;

/// Speed of the player's paddle: 2000 pixels per second.
pub const PLAYER_SPEED: i64 = 2_000_000_000;

/// Distance from the left edge of the viewport to the player's paddle: 10 pixels.
pub const PLAYER_MARGIN: i64 = 10_000_000;

/// Length of the countdown after a point: 3 seconds.
pub const COUNTDOWN: i64 = 3_000_000;

/// Number of past ball positions that are kept.
pub const HISTORY_LEN: usize = 10;

/// How far outside the viewport the ball can rest between two ticks: 100 pixels.
pub const FIELD_MARGIN: i64 = 100_000_000;

/// The state of a match as plain mathematical values. Screen extents are in
/// pixels; every other length, time and speed is in millionths.
pub struct GameView {
    pub ball_position: Vec2,
    pub ball_velocity: Vec2,
    pub ball_speed: int,
    pub ball_radius: int,
    pub ball_position_history: Seq<Vec2>,
    pub player_position: Vec2,
    pub player_size: Vec2,
    pub player_speed: int,
    pub enemy_ai: AiView,
    pub score: (int, int),
    pub time_since_last_score: int,
    pub paused: bool,
    pub screen_width: int,
    pub screen_height: int,
    pub game_state: GameState,
}

// ---------------------------------------------------------------------------
// Layout
// ---------------------------------------------------------------------------

/// A reported viewport extent in pixels, raised to one pixel where it is
/// less.
pub open spec fn clamp_viewport(n: int) -> int {
    if n < 1 {
        1
    } else {
        n
    }
}

/// Centre of a viewport of `w` by `h` pixels.
pub open spec fn field_center(w: int, h: int) -> Vec2 {
    Vec2 { x: trunc_div(w * SCALE, 2), y: trunc_div(h * SCALE, 2) }
}

/// Where the player's paddle is anchored in a viewport `h` pixels high.
pub open spec fn player_anchor(h: int) -> Vec2 {
    Vec2 { x: PLAYER_MARGIN as int, y: centered_top(h * SCALE) }
}

/// The match that [`crate::game::Game::new`] builds for a viewport of `w` by
/// `h` pixels, both at least 1.
pub open spec fn initial_game(w: int, h: int) -> GameView {
    GameView {
        ball_position: field_center(w, h),
        ball_velocity: Vec2 { x: -(SCALE / 2) as int, y: -(SCALE as int) },
        ball_speed: BALL_SPEED as int,
        ball_radius: BALL_RADIUS as int,
        ball_position_history: Seq::new(HISTORY_LEN as nat, |i: int| field_center(w, h)),
        player_position: player_anchor(h),
        player_size: Vec2 { x: PADDLE_WIDTH as int, y: PADDLE_HEIGHT as int },
        player_speed: PLAYER_SPEED as int,
        enemy_ai: ai_initial(w * SCALE, h * SCALE),
        score: (0, 0),
        time_since_last_score: 0,
        paused: true,
        screen_width: w,
        screen_height: h,
        game_state: GameState::Credits,
    }
}

/// `g` with both paddles on their anchors and the ball in the centre.
pub open spec fn repositioned(g: GameView) -> GameView {
    GameView {
        player_position: player_anchor(g.screen_height),
        enemy_ai: ai_resized(g.enemy_ai, g.screen_width * SCALE, g.screen_height * SCALE),
        ball_position: field_center(g.screen_width, g.screen_height),
        ..g
    }
}

/// `g` after the viewport was reported as `w` by `h` pixels: nothing changes
/// unless the accepted size differs from the current one.
pub open spec fn resized(g: GameView, w: int, h: int) -> GameView {
    let cw = clamp_viewport(w);
    let ch = clamp_viewport(h);
    if g.screen_width != cw || g.screen_height != ch {
        repositioned(GameView { screen_width: cw, screen_height: ch, ..g })
    } else {
        g
    }
}

/// `g` after the viewport sizes of `sizes` were reported one after another.
pub open spec fn resized_all(g: GameView, sizes: Seq<(int, int)>) -> GameView
    decreases sizes.len(),
{
    if sizes.len() == 0 {
        g
    } else {
        let before = resized_all(g, sizes.drop_last());
        resized(before, sizes.last().0, sizes.last().1)
    }
}

// ---------------------------------------------------------------------------
// Countdown
// ---------------------------------------------------------------------------

/// The countdown after the last point is still running at time `now`.
pub open spec fn counting_down(g: GameView, now: int) -> bool {
    now - g.time_since_last_score < COUNTDOWN
}

/// Time left of the countdown at `now`, if it is still running.
pub open spec fn countdown_left(g: GameView, now: int) -> Option<int> {
    if COUNTDOWN - (now - g.time_since_last_score) > 0 {
        Some(COUNTDOWN - (now - g.time_since_last_score))
    } else {
        None
    }
}

// ---------------------------------------------------------------------------
// Player movement
// ---------------------------------------------------------------------------

/// Distance that the player's paddle covers in a frame of length `dt`.
pub open spec fn player_stride(g: GameView, dt: int) -> int {
    trunc_div(g.player_speed * dt, SCALE as int)
}

/// Lowest position of the top of the player's paddle.
pub open spec fn player_bottom(g: GameView) -> int {
    g.screen_height * SCALE - g.player_size.y
}

/// `y` after one movement source: up by `stride` but not above 0 where `up`
/// is held, else down by `stride` but not below `bottom` where `down` is.
pub open spec fn nudged(y: int, up: bool, down: bool, stride: int, bottom: int) -> int {
    if up {
        if y - stride >= 0 { y - stride } else { 0 }
    } else if down {
        if y + stride <= bottom { y + stride } else { bottom }
    } else {
        y
    }
}

/// `y` after all movement sources, in their fixed order: first key pair,
/// second key pair, then the stick and the pad of a connected gamepad.
pub open spec fn moved_player_y(y: int, input: PlayerInput, stride: int, bottom: int) -> int {
    let y1 = nudged(y, input.key_w, input.key_s, stride, bottom);
    let y2 = nudged(y1, input.key_up, input.key_down, stride, bottom);
    match input.gamepad {
        None => y2,
        Some(pad) => {
            let y3 = nudged(y2, stick_up(pad), stick_down(pad), stride, bottom);
            nudged(y3, pad.dpad_up, pad.dpad_down, stride, bottom)
        },
    }
}

/// `history` with `p` put in front and the oldest entry dropped.
pub open spec fn history_pushed(history: Seq<Vec2>, p: Vec2) -> Seq<Vec2> {
    history.drop_last().insert(0, p)
}

/// `g` after the player's input of one frame was applied.
pub open spec fn player_moved(g: GameView, input: PlayerInput, dt: int) -> GameView {
    GameView {
        ball_position_history: history_pushed(g.ball_position_history, g.ball_position),
        player_position: Vec2 {
            x: g.player_position.x,
            y: moved_player_y(g.player_position.y, input, player_stride(g, dt), player_bottom(g)),
        },
        ..g
    }
}

// ---------------------------------------------------------------------------
// Ball movement
// ---------------------------------------------------------------------------

/// Distance that the ball covers along one axis in a frame of length `dt`:
/// `v * (speed / (w / h)) * dt`, rounded once, towards zero.
pub open spec fn ball_travel(v: int, speed: int, w: int, h: int, dt: int) -> int {
    trunc_div(v * speed * h * dt, w * SCALE * SCALE)
}

/// `g` with the ball moved along its velocity for a frame of length `dt`.
pub open spec fn ball_advanced(g: GameView, dt: int) -> GameView {
    GameView {
        ball_position: Vec2 {
            x: g.ball_position.x + ball_travel(
                g.ball_velocity.x,
                g.ball_speed,
                g.screen_width,
                g.screen_height,
                dt,
            ),
            y: g.ball_position.y + ball_travel(
                g.ball_velocity.y,
                g.ball_speed,
                g.screen_width,
                g.screen_height,
                dt,
            ),
        },
        ..g
    }
}

/// A coordinate as far as 64 bits hold it: itself where it fits, else the
/// end of the range on its side.
pub open spec fn held(c: int) -> int {
    clamp_between(c, i64::MIN as int, i64::MAX as int)
}

/// A point as far as 64 bits hold it, each coordinate on its own.
pub open spec fn held_point(p: Vec2) -> Vec2 {
    Vec2 { x: held(p.x), y: held(p.y) }
}

/// `g` with the ball where 64 bits hold it.
pub open spec fn ball_held(g: GameView) -> GameView {
    GameView { ball_position: held_point(g.ball_position), ..g }
}

/// `g` after the opponent was shown the ball and made its tracking step.
/// The opponent remembers the ball's position as far as 64 bits hold it; a
/// ball beyond that is so far out that this makes no difference to the step.
pub open spec fn opponent_ticked(g: GameView) -> GameView {
    GameView {
        enemy_ai: ai_tick(
            ai_observed(
                g.enemy_ai,
                held_point(g.ball_position),
                g.ball_velocity,
                g.ball_speed,
                g.ball_radius,
            ),
        ),
        ..g
    }
}

// ---------------------------------------------------------------------------
// Walls
// ---------------------------------------------------------------------------

/// The ball has left the field on the left.
pub open spec fn crossed_left(g: GameView) -> bool {
    g.ball_position.x < -trunc_div(g.ball_radius, 2)
}

/// The ball has left the field on the right.
pub open spec fn crossed_right(g: GameView) -> bool {
    g.ball_position.x > g.screen_width * SCALE + trunc_div(g.ball_radius, 2)
}

/// `g` with the ball back in the centre, leaving in the direction `fresh`,
/// and the countdown started at `now`.
pub open spec fn served(g: GameView, now: int, fresh: Vec2) -> GameView {
    GameView {
        ball_position: field_center(g.screen_width, g.screen_height),
        ball_velocity: fresh,
        time_since_last_score: now,
        ..g
    }
}

/// `g` after the scoring walls were checked: a ball beyond the left edge is a
/// point for the opponent, one beyond the right edge a point for the player,
/// and either is followed by a serve.
pub open spec fn wall_x_resolved(g: GameView, now: int, fresh: Vec2) -> GameView {
    if crossed_left(g) {
        GameView { score: (g.score.0, g.score.1 + 1), ..served(g, now, fresh) }
    } else if crossed_right(g) {
        GameView { score: (g.score.0 + 1, g.score.1), ..served(g, now, fresh) }
    } else {
        g
    }
}

/// The events of [`wall_x_resolved`].
pub open spec fn wall_x_sounds(g: GameView) -> Seq<SoundHandle> {
    if crossed_left(g) {
        seq![sfx(SoundType::OpponentScored)]
    } else if crossed_right(g) {
        seq![sfx(SoundType::PlayerScored)]
    } else {
        Seq::empty()
    }
}

/// The ball reaches over the top wall.
pub open spec fn hits_top(g: GameView) -> bool {
    g.ball_position.y < g.ball_radius
}

/// The ball reaches over the bottom wall.
pub open spec fn hits_bottom(g: GameView) -> bool {
    g.ball_position.y > g.screen_height * SCALE - g.ball_radius
}

/// `g` after the bouncing walls were checked: a ball over the top or the
/// bottom wall is put back against it and its vertical velocity is negated.
pub open spec fn wall_y_resolved(g: GameView) -> GameView {
    if hits_top(g) {
        GameView {
            ball_position: Vec2 { x: g.ball_position.x, y: g.ball_radius },
            ball_velocity: Vec2 { x: g.ball_velocity.x, y: -g.ball_velocity.y },
            ..g
        }
    } else if hits_bottom(g) {
        GameView {
            ball_position: Vec2 {
                x: g.ball_position.x,
                y: g.screen_height * SCALE - g.ball_radius,
            },
            ball_velocity: Vec2 { x: g.ball_velocity.x, y: -g.ball_velocity.y },
            ..g
        }
    } else {
        g
    }
}

/// The events of [`wall_y_resolved`].
pub open spec fn wall_y_sounds(g: GameView) -> Seq<SoundHandle> {
    if hits_top(g) || hits_bottom(g) {
        seq![sfx(SoundType::Bounce)]
    } else {
        Seq::empty()
    }
}

/// `g` after both pairs of walls were checked, the scoring walls first.
pub open spec fn walls_resolved(g: GameView, now: int, fresh: Vec2) -> GameView {
    wall_y_resolved(wall_x_resolved(g, now, fresh))
}

/// The events of [`walls_resolved`].
pub open spec fn walls_sounds(g: GameView, now: int, fresh: Vec2) -> Seq<SoundHandle> {
    wall_x_sounds(g) + wall_y_sounds(wall_x_resolved(g, now, fresh))
}

// ---------------------------------------------------------------------------
// Paddles
// ---------------------------------------------------------------------------

/// The bounding square of the ball and the rectangle of a paddle overlap.
pub open spec fn overlaps(ball: Vec2, radius: int, paddle: Vec2, size: Vec2) -> bool {
    &&& ball.x - radius < paddle.x + size.x
    &&& ball.x + radius > paddle.x
    &&& ball.y - radius < paddle.y + size.y
    &&& ball.y + radius > paddle.y
}

/// The ball travels towards the paddle: leftwards for the player's,
/// rightwards for the opponent's.
pub open spec fn approaching(velocity: Vec2, is_player: bool) -> bool {
    (is_player && velocity.x < 0) || (!is_player && velocity.x > 0)
}

/// The ball hits the paddle: it overlaps it and travels towards it.
pub open spec fn ball_collides(
    ball: Vec2,
    radius: int,
    velocity: Vec2,
    paddle: Vec2,
    size: Vec2,
    is_player: bool,
) -> bool {
    overlaps(ball, radius, paddle, size) && approaching(velocity, is_player)
}

/// Centre of a paddle.
pub open spec fn paddle_center(position: Vec2, size: Vec2) -> Vec2 {
    Vec2 { x: position.x + trunc_div(size.x, 2), y: position.y + trunc_div(size.y, 2) }
}

/// Velocity after a paddle hit: the horizontal component negated, the
/// vertical one the negated vertical component of the unit vector from the
/// paddle's centre to the ball.
pub open spec fn reflected(v_in: Vec2, ball: Vec2, center: Vec2) -> Vec2 {
    Vec2 { x: -v_in.x, y: -vec_normalized(vec_sub(ball, center)).y }
}

/// Horizontal position of a ball that touches the right face of the player's paddle.
pub open spec fn flush_with_player(g: GameView) -> int {
    g.player_position.x + g.player_size.x + g.ball_radius
}

/// Horizontal position of a ball that touches the left face of the opponent's paddle.
pub open spec fn flush_with_enemy(g: GameView) -> int {
    g.enemy_ai.position.x - g.ball_radius
}

/// The ball hits the player's paddle.
pub open spec fn player_hit(g: GameView) -> bool {
    ball_collides(
        g.ball_position,
        g.ball_radius,
        g.ball_velocity,
        g.player_position,
        g.player_size,
        true,
    )
}

/// The ball hits the opponent's paddle.
pub open spec fn enemy_hit(g: GameView) -> bool {
    ball_collides(
        g.ball_position,
        g.ball_radius,
        g.ball_velocity,
        g.enemy_ai.position,
        g.enemy_ai.size,
        false,
    )
}

/// `g` with the ball put at the horizontal position `x` and sent back from
/// the paddle at `paddle` of size `size`.
pub open spec fn bounced_off(g: GameView, x: int, paddle: Vec2, size: Vec2) -> GameView {
    let ball = Vec2 { x, y: g.ball_position.y };
    GameView {
        ball_position: ball,
        ball_velocity: reflected(g.ball_velocity, ball, paddle_center(paddle, size)),
        ..g
    }
}

/// `g` after the player's paddle was checked.
pub open spec fn player_hit_resolved(g: GameView) -> GameView {
    if player_hit(g) {
        bounced_off(g, flush_with_player(g), g.player_position, g.player_size)
    } else {
        g
    }
}

/// `g` after the opponent's paddle was checked.
pub open spec fn enemy_hit_resolved(g: GameView) -> GameView {
    if enemy_hit(g) {
        bounced_off(g, flush_with_enemy(g), g.enemy_ai.position, g.enemy_ai.size)
    } else {
        g
    }
}

/// The event of a paddle hit, if there was one.
pub open spec fn hit_sounds(hit: bool) -> Seq<SoundHandle> {
    if hit {
        seq![sfx(SoundType::Bounce)]
    } else {
        Seq::empty()
    }
}

/// `g` after all collisions were resolved, in their fixed order: scoring
/// walls, bouncing walls, the player's paddle, the opponent's paddle.
pub open spec fn collisions_resolved(g: GameView, now: int, fresh: Vec2) -> GameView {
    enemy_hit_resolved(player_hit_resolved(walls_resolved(g, now, fresh)))
}

/// The events of [`collisions_resolved`], in the order in which they arise.
pub open spec fn collision_sounds(g: GameView, now: int, fresh: Vec2) -> Seq<SoundHandle> {
    let after_walls = walls_resolved(g, now, fresh);
    walls_sounds(g, now, fresh) + hit_sounds(player_hit(after_walls)) + hit_sounds(
        enemy_hit(player_hit_resolved(after_walls)),
    )
}

// ---------------------------------------------------------------------------
// One tick
// ---------------------------------------------------------------------------

/// `g` after the pause flag was set for `now` and the player's input was
/// applied: the part of a tick that runs whether or not the match is paused.
pub open spec fn tick_begun(g: GameView, now: int, dt: int, input: PlayerInput) -> GameView {
    player_moved(GameView { paused: counting_down(g, now), ..g }, input, dt)
}

/// `g` after the ball and the opponent moved: the state in which collisions
/// are looked for.
pub open spec fn tick_moved(g: GameView, now: int, dt: int, input: PlayerInput) -> GameView {
    opponent_ticked(ball_advanced(tick_begun(g, now, dt, input), dt))
}

/// `g` after one tick at time `now` for a frame of length `dt`, where a serve,
/// if the tick leads to one, leaves in the direction `fresh`.
pub open spec fn tick(g: GameView, now: int, dt: int, input: PlayerInput, fresh: Vec2) -> GameView {
    let begun = tick_begun(g, now, dt, input);
    if begun.paused {
        begun
    } else {
        collisions_resolved(tick_moved(g, now, dt, input), now, fresh)
    }
}

/// The events of [`tick`], in the order in which they arise.
pub open spec fn tick_sounds(
    g: GameView,
    now: int,
    dt: int,
    input: PlayerInput,
    fresh: Vec2,
) -> Seq<SoundHandle> {
    if counting_down(g, now) {
        Seq::empty()
    } else {
        collision_sounds(tick_moved(g, now, dt, input), now, fresh)
    }
}

/// `after` and the queue `queued` are what checking the walls of `before`
/// gives, with the queue `waiting` before it, where a serve leaves in the
/// direction `fresh`.
pub open spec fn walls_outcome(
    before: GameView,
    after: GameView,
    waiting: Seq<SoundHandle>,
    queued: Seq<SoundHandle>,
    now: int,
    fresh: Vec2,
) -> bool {
    after == walls_resolved(before, now, fresh) && queued == waiting + walls_sounds(
        before,
        now,
        fresh,
    )
}

/// `after` and the queue `queued` are what resolving the collisions of
/// `before` gives, with the queue `waiting` before it, where a serve leaves
/// in the direction `fresh`.
pub open spec fn collision_outcome(
    before: GameView,
    after: GameView,
    waiting: Seq<SoundHandle>,
    queued: Seq<SoundHandle>,
    now: int,
    fresh: Vec2,
) -> bool {
    after == collisions_resolved(before, now, fresh) && queued == waiting + collision_sounds(
        before,
        now,
        fresh,
    )
}

/// `after` and the queue `queued` are what one tick of `before` gives, with
/// the queue `waiting` before it, where a serve leaves in the direction
/// `fresh`.
pub open spec fn tick_outcome(
    before: GameView,
    after: GameView,
    waiting: Seq<SoundHandle>,
    queued: Seq<SoundHandle>,
    now: int,
    dt: int,
    input: PlayerInput,
    fresh: Vec2,
) -> bool {
    after == tick(before, now, dt, input, fresh) && queued == waiting + tick_sounds(
        before,
        now,
        dt,
        input,
        fresh,
    )
}

// ---------------------------------------------------------------------------
// Validity
// ---------------------------------------------------------------------------

/// A velocity whose components can be negated: neither is the least `i64`.
pub open spec fn valid_velocity(v: Vec2) -> bool {
    &&& -0x7fff_ffff_ffff_ffff <= v.x <= 0x7fff_ffff_ffff_ffff
    &&& -0x7fff_ffff_ffff_ffff <= v.y <= 0x7fff_ffff_ffff_ffff
}

/// The ball rests in the field or within the margin around it.
pub open spec fn ball_in_field(position: Vec2, w: int, h: int) -> bool {
    &&& -FIELD_MARGIN <= position.x <= w * SCALE + FIELD_MARGIN
    &&& -FIELD_MARGIN <= position.y <= h * SCALE + FIELD_MARGIN
}

/// What holds of every match at every moment, wherever its parts are.
pub open spec fn statics_wf(g: GameView) -> bool {
    &&& 1 <= g.screen_width <= i32::MAX
    &&& 1 <= g.screen_height <= i32::MAX
    &&& g.ball_speed == BALL_SPEED
    &&& g.ball_radius == BALL_RADIUS
    &&& valid_velocity(g.ball_velocity)
    &&& g.ball_position_history.len() == HISTORY_LEN
    &&& g.player_size == (Vec2 { x: PADDLE_WIDTH as int, y: PADDLE_HEIGHT as int })
    &&& g.player_speed == PLAYER_SPEED
    &&& ai_wf(g.enemy_ai)
    &&& 0 <= g.score.0 <= u32::MAX
    &&& 0 <= g.score.1 <= u32::MAX
}

/// What holds of every match at every moment, whatever the ball's position:
/// the paddles stand on their columns and inside the viewport, and the
/// opponent knows the viewport.
pub open spec fn parts_wf(g: GameView) -> bool {
    &&& statics_wf(g)
    &&& g.player_position.x == PLAYER_MARGIN
    &&& -PADDLE_HEIGHT <= g.player_position.y
    &&& g.player_position.y <= 0 || g.player_position.y <= player_bottom(g)
    &&& player_bottom(g) >= 0 ==> 0 <= g.player_position.y <= player_bottom(g)
    &&& g.enemy_ai.screen_width == g.screen_width * SCALE
    &&& g.enemy_ai.screen_height == g.screen_height * SCALE
}

/// What holds of every match between two ticks.
pub open spec fn game_wf(g: GameView) -> bool {
    parts_wf(g) && ball_in_field(g.ball_position, g.screen_width, g.screen_height)
}

/// Both score counters can still be raised.
pub open spec fn can_score(g: GameView) -> bool {
    g.score.0 < u32::MAX && g.score.1 < u32::MAX
}

/// The counter that the ball's position is about to raise, if any, can still
/// be raised: the opponent's where the ball is beyond the left wall, the
/// player's where it is beyond the right wall.
pub open spec fn scorer_has_room(g: GameView) -> bool {
    &&& crossed_left(g) ==> g.score.1 < u32::MAX
    &&& !crossed_left(g) && crossed_right(g) ==> g.score.0 < u32::MAX
}

/// A frame length: any time that is not negative.
pub open spec fn valid_dt(dt: int) -> bool {
    0 <= dt
}

/// What a tick at time `now` for a frame of length `dt` asks of a valid
/// match. The frame is not negative. While the countdown runs that is all.
/// Otherwise the counter that the frame's way of the ball is about to raise,
/// if any, can still be raised.
pub open spec fn tick_admitted(g: GameView, now: int, dt: int) -> bool {
    &&& valid_dt(dt)
    &&& !counting_down(g, now) ==> scorer_has_room(ball_advanced(g, dt))
}

// ---------------------------------------------------------------------------
// Laws
// ---------------------------------------------------------------------------

/// While the countdown runs, a tick changes neither the ball's position nor
/// its velocity, the opponent does not move, the score stays, and no event
/// arises; whatever the input, the frame length and the serve in waiting.
pub proof fn lemma_paused_tick_freezes(
    g: GameView,
    now: int,
    dt: int,
    input: PlayerInput,
    fresh: Vec2,
)
    requires
        counting_down(g, now),
    ensures
        tick(g, now, dt, input, fresh).paused,
        tick(g, now, dt, input, fresh).ball_position == g.ball_position,
        tick(g, now, dt, input, fresh).ball_velocity == g.ball_velocity,
        tick(g, now, dt, input, fresh).enemy_ai == g.enemy_ai,
        tick(g, now, dt, input, fresh).score == g.score,
        tick(g, now, dt, input, fresh).time_since_last_score == g.time_since_last_score,
        tick_sounds(g, now, dt, input, fresh) == Seq::<SoundHandle>::empty(),
{
}

/// One movement source keeps the paddle's top inside `[0, bottom]`, for every
/// combination of held keys and every stride that is not negative.
pub proof fn lemma_nudged_stays_inside(y: int, up: bool, down: bool, stride: int, bottom: int)
    requires
        0 <= y <= bottom,
        0 <= stride,
    ensures
        0 <= nudged(y, up, down, stride, bottom) <= bottom,
{
}

/// The player's input never moves the paddle out of the viewport: where the
/// paddle's top lies in `[0, viewport_height - paddle_height]` before, it
/// does so after, whatever is held and however long the frame.
pub proof fn lemma_player_stays_inside(g: GameView, input: PlayerInput, dt: int)
    requires
        0 <= g.player_position.y <= player_bottom(g),
        0 <= g.player_speed,
        0 <= dt,
    ensures
        0 <= player_moved(g, input, dt).player_position.y <= player_bottom(g),
        player_bottom(player_moved(g, input, dt)) == player_bottom(g),
        player_moved(g, input, dt).player_position.x == g.player_position.x,
{
    let stride = player_stride(g, dt);
    let bottom = player_bottom(g);
    assert(g.player_speed * dt >= 0) by (nonlinear_arith)
        requires
            0 <= g.player_speed,
            0 <= dt,
    ;
    lemma_trunc_div_bounds(g.player_speed * dt, SCALE as int);
    let y1 = nudged(g.player_position.y, input.key_w, input.key_s, stride, bottom);
    let y2 = nudged(y1, input.key_up, input.key_down, stride, bottom);
    lemma_nudged_stays_inside(g.player_position.y, input.key_w, input.key_s, stride, bottom);
    lemma_nudged_stays_inside(y1, input.key_up, input.key_down, stride, bottom);
    match input.gamepad {
        None => {},
        Some(pad) => {
            let y3 = nudged(y2, stick_up(pad), stick_down(pad), stride, bottom);
            lemma_nudged_stays_inside(y2, stick_up(pad), stick_down(pad), stride, bottom);
            lemma_nudged_stays_inside(y3, pad.dpad_up, pad.dpad_down, stride, bottom);
        },
    }
}

/// In every valid match whose viewport is at least as high as the paddle,
/// the paddle's top lies in `[0, viewport_height - paddle_height]` after the
/// player's input was applied, whatever is held and for every frame length
/// that a tick accepts.
pub proof fn lemma_valid_player_stays_inside(g: GameView, input: PlayerInput, dt: int)
    requires
        parts_wf(g),
        valid_dt(dt),
        player_bottom(g) >= 0,
    ensures
        0 <= player_moved(g, input, dt).player_position.y <= g.screen_height * SCALE
            - g.player_size.y,
{
    lemma_player_stays_inside(g, input, dt);
}

/// A whole tick never moves the player's paddle out of the viewport, paused
/// or not.
pub proof fn lemma_tick_keeps_player_inside(
    g: GameView,
    now: int,
    dt: int,
    input: PlayerInput,
    fresh: Vec2,
)
    requires
        0 <= g.player_position.y <= player_bottom(g),
        0 <= g.player_speed,
        0 <= dt,
    ensures
        0 <= tick(g, now, dt, input, fresh).player_position.y <= player_bottom(g),
        player_bottom(tick(g, now, dt, input, fresh)) == player_bottom(g),
{
    let gated = GameView { paused: counting_down(g, now), ..g };
    lemma_player_stays_inside(gated, input, dt);
}

/// A bounce off the top or bottom wall negates the vertical velocity, so its
/// sign flips strictly unless it was zero, puts the ball against that wall
/// exactly, and leaves everything else as it was.
pub proof fn lemma_wall_bounce(g: GameView)
    requires
        hits_top(g) || hits_bottom(g),
    ensures
        wall_y_resolved(g).ball_velocity.y == -g.ball_velocity.y,
        g.ball_velocity.y > 0 ==> wall_y_resolved(g).ball_velocity.y < 0,
        g.ball_velocity.y < 0 ==> wall_y_resolved(g).ball_velocity.y > 0,
        wall_y_resolved(g).ball_velocity.x == g.ball_velocity.x,
        hits_top(g) ==> wall_y_resolved(g).ball_position.y == g.ball_radius,
        !hits_top(g) ==> wall_y_resolved(g).ball_position.y == g.screen_height * SCALE
            - g.ball_radius,
        wall_y_resolved(g).ball_position.x == g.ball_position.x,
        wall_y_resolved(g) == (GameView {
            ball_position: wall_y_resolved(g).ball_position,
            ball_velocity: wall_y_resolved(g).ball_velocity,
            ..g
        }),
{
}

/// Without a bounce the bouncing walls change nothing.
pub proof fn lemma_no_wall_bounce(g: GameView)
    requires
        !hits_top(g),
        !hits_bottom(g),
    ensures
        wall_y_resolved(g) == g,
        g.ball_radius <= g.ball_position.y <= g.screen_height * SCALE - g.ball_radius,
{
}

/// A hit on the player's paddle leaves the ball's left edge on the paddle's
/// right face, so that the two no longer overlap, and negates the horizontal
/// velocity, which then points away from the paddle.
pub proof fn lemma_player_hit(g: GameView)
    requires
        player_hit(g),
    ensures
        player_hit_resolved(g).ball_position.x - g.ball_radius == g.player_position.x
            + g.player_size.x,
        player_hit_resolved(g).ball_position.y == g.ball_position.y,
        player_hit_resolved(g).ball_velocity.x == -g.ball_velocity.x,
        player_hit_resolved(g).ball_velocity.x > 0,
        !overlaps(
            player_hit_resolved(g).ball_position,
            g.ball_radius,
            g.player_position,
            g.player_size,
        ),
        !player_hit(player_hit_resolved(g)),
{
}

/// A hit on the opponent's paddle leaves the ball's right edge on the
/// paddle's left face, so that the two no longer overlap, and negates the
/// horizontal velocity, which then points away from the paddle.
pub proof fn lemma_enemy_hit(g: GameView)
    requires
        enemy_hit(g),
    ensures
        enemy_hit_resolved(g).ball_position.x + g.ball_radius == g.enemy_ai.position.x,
        enemy_hit_resolved(g).ball_position.y == g.ball_position.y,
        enemy_hit_resolved(g).ball_velocity.x == -g.ball_velocity.x,
        enemy_hit_resolved(g).ball_velocity.x < 0,
        !overlaps(
            enemy_hit_resolved(g).ball_position,
            g.ball_radius,
            g.enemy_ai.position,
            g.enemy_ai.size,
        ),
        !enemy_hit(enemy_hit_resolved(g)),
{
}

/// A ball that travels away from a paddle never hits it, wherever it is.
pub proof fn lemma_direction_gate(g: GameView)
    ensures
        g.ball_velocity.x >= 0 ==> !player_hit(g) && player_hit_resolved(g) == g,
        g.ball_velocity.x <= 0 ==> !enemy_hit(g) && enemy_hit_resolved(g) == g,
{
}

/// A ball beyond a scoring wall raises exactly one counter by exactly one
/// (the opponent's on the left, the player's on the right), returns to the
/// centre of the field, and restarts the countdown: no time has passed since
/// the point, so the match is paused again.
pub proof fn lemma_score_once(g: GameView, now: int, fresh: Vec2)
    requires
        crossed_left(g) || crossed_right(g),
    ensures
        crossed_left(g) ==> wall_x_resolved(g, now, fresh).score == (g.score.0, g.score.1 + 1),
        !crossed_left(g) ==> wall_x_resolved(g, now, fresh).score == (g.score.0 + 1, g.score.1),
        wall_x_resolved(g, now, fresh).ball_position == field_center(
            g.screen_width,
            g.screen_height,
        ),
        wall_x_resolved(g, now, fresh).ball_velocity == fresh,
        now - wall_x_resolved(g, now, fresh).time_since_last_score == 0,
        counting_down(wall_x_resolved(g, now, fresh), now),
        wall_x_sounds(g).len() == 1,
{
}

/// On a viewport of at least 60 by 20 pixels a served ball touches neither
/// wall nor paddle: after all collisions of a valid match were resolved, a
/// ball that had crossed a scoring wall rests in the centre of the field with
/// the velocity of the serve, and the only event is the scorer's.
pub proof fn lemma_scored_ball_rests_in_centre(g: GameView, now: int, fresh: Vec2)
    requires
        parts_wf(g),
        crossed_left(g) || crossed_right(g),
        g.screen_width >= 60,
        g.screen_height >= 20,
    ensures
        collisions_resolved(g, now, fresh) == wall_x_resolved(g, now, fresh),
        collisions_resolved(g, now, fresh).ball_position == field_center(
            g.screen_width,
            g.screen_height,
        ),
        collisions_resolved(g, now, fresh).ball_velocity == fresh,
        collision_sounds(g, now, fresh) =~= wall_x_sounds(g),
{
    let scored = wall_x_resolved(g, now, fresh);
    assert(!hits_top(scored) && !hits_bottom(scored));
    assert(walls_resolved(g, now, fresh) == scored);
    assert(!player_hit(scored));
    assert(!enemy_hit(scored));
}

/// A ball inside the scoring walls changes neither the score nor the
/// countdown.
pub proof fn lemma_no_score(g: GameView, now: int, fresh: Vec2)
    requires
        !crossed_left(g),
        !crossed_right(g),
    ensures
        wall_x_resolved(g, now, fresh) == g,
        wall_x_sounds(g).len() == 0,
{
}

/// The ball's position when a tick looks for collisions: where the frame has
/// carried it.
pub open spec fn tick_crossing(g: GameView, now: int, dt: int, input: PlayerInput) -> bool {
    !counting_down(g, now) && (crossed_left(tick_moved(g, now, dt, input)) || crossed_right(
        tick_moved(g, now, dt, input),
    ))
}

/// Scoring is monotonic over whole ticks: no counter ever falls; a tick
/// raises a counter only when the match runs and the frame has carried the
/// ball beyond a scoring wall, and then it raises exactly one of them by
/// exactly one and restarts the countdown at `now`.
pub proof fn lemma_tick_scores_at_most_once(
    g: GameView,
    now: int,
    dt: int,
    input: PlayerInput,
    fresh: Vec2,
)
    ensures
        tick(g, now, dt, input, fresh).score.0 >= g.score.0,
        tick(g, now, dt, input, fresh).score.1 >= g.score.1,
        tick_crossing(g, now, dt, input) ==> {
            &&& tick(g, now, dt, input, fresh).score.0 + tick(g, now, dt, input, fresh).score.1
                == g.score.0 + g.score.1 + 1
            &&& tick(g, now, dt, input, fresh).time_since_last_score == now
            &&& counting_down(tick(g, now, dt, input, fresh), now)
        },
        !tick_crossing(g, now, dt, input) ==> {
            &&& tick(g, now, dt, input, fresh).score == g.score
            &&& tick(g, now, dt, input, fresh).time_since_last_score == g.time_since_last_score
        },
{
}

/// The paddles and the ball stand on the anchors of the current viewport.
pub open spec fn is_anchored(g: GameView) -> bool {
    &&& g.player_position == player_anchor(g.screen_height)
    &&& g.enemy_ai.position == ai_anchor(g.screen_width * SCALE, g.screen_height * SCALE)
    &&& g.enemy_ai.screen_width == g.screen_width * SCALE
    &&& g.enemy_ai.screen_height == g.screen_height * SCALE
    &&& g.ball_position == field_center(g.screen_width, g.screen_height)
}

/// What a resize never touches.
pub open spec fn same_round(a: GameView, b: GameView) -> bool {
    &&& a.ball_velocity == b.ball_velocity
    &&& a.score == b.score
    &&& a.time_since_last_score == b.time_since_last_score
    &&& a.paused == b.paused
    &&& a.game_state == b.game_state
    &&& a.ball_position_history == b.ball_position_history
}

/// A resize either changes nothing or leaves everything on the anchors of
/// the new viewport; it never touches velocity, score or countdown.
pub proof fn lemma_resized(g: GameView, w: int, h: int)
    ensures
        resized(g, w, h) == g || is_anchored(resized(g, w, h)),
        resized(g, w, h).screen_width == clamp_viewport(w),
        resized(g, w, h).screen_height == clamp_viewport(h),
        same_round(resized(g, w, h), g),
        is_anchored(g) ==> is_anchored(resized(g, w, h)),
{
}

/// Any number of resizes keeps an anchored match anchored and leaves
/// velocity, score and countdown alone.
pub proof fn lemma_resized_all(g: GameView, sizes: Seq<(int, int)>)
    requires
        is_anchored(g),
    ensures
        is_anchored(resized_all(g, sizes)),
        same_round(resized_all(g, sizes), g),
        sizes.len() > 0 ==> resized_all(g, sizes).screen_width == clamp_viewport(sizes.last().0),
        sizes.len() > 0 ==> resized_all(g, sizes).screen_height == clamp_viewport(
            sizes.last().1,
        ),
    decreases sizes.len(),
{
    if sizes.len() > 0 {
        lemma_resized_all(g, sizes.drop_last());
        lemma_resized(resized_all(g, sizes.drop_last()), sizes.last().0, sizes.last().1);
    }
}

/// Resizing the viewport of an anchored match any number of times and then
/// back to the size it had puts the paddles and the ball exactly where they
/// stood before, with velocity, score and countdown untouched.
pub proof fn lemma_resize_round_trip(g: GameView, sizes: Seq<(int, int)>)
    requires
        is_anchored(g),
        sizes.len() > 0,
        clamp_viewport(sizes.last().0) == g.screen_width,
        clamp_viewport(sizes.last().1) == g.screen_height,
    ensures
        resized_all(g, sizes).screen_width == g.screen_width,
        resized_all(g, sizes).screen_height == g.screen_height,
        resized_all(g, sizes).player_position == g.player_position,
        resized_all(g, sizes).enemy_ai.position == g.enemy_ai.position,
        resized_all(g, sizes).ball_position == g.ball_position,
        same_round(resized_all(g, sizes), g),
{
    lemma_resized_all(g, sizes);
}

/// Resizing any match any number of times and then back to its size either
/// never changed the size, and then changed nothing at all, or leaves the
/// paddles and the ball exactly where repositioning the match as it was
/// would have put them: where they end depends on the final size alone.
pub proof fn lemma_resize_back_reanchors(g: GameView, sizes: Seq<(int, int)>)
    requires
        sizes.len() > 0,
        clamp_viewport(sizes.last().0) == g.screen_width,
        clamp_viewport(sizes.last().1) == g.screen_height,
    ensures
        resized_all(g, sizes) == g || {
            &&& resized_all(g, sizes).player_position == repositioned(g).player_position
            &&& resized_all(g, sizes).enemy_ai.position == repositioned(g).enemy_ai.position
            &&& resized_all(g, sizes).ball_position == repositioned(g).ball_position
        },
        resized_all(g, sizes).screen_width == g.screen_width,
        resized_all(g, sizes).screen_height == g.screen_height,
        same_round(resized_all(g, sizes), g),
{
    lemma_resized_all_any(g, sizes);
}

/// Any number of resizes either changes nothing or leaves everything on the
/// anchors of the last size, and never touches velocity, score or countdown.
pub proof fn lemma_resized_all_any(g: GameView, sizes: Seq<(int, int)>)
    ensures
        resized_all(g, sizes) == g || is_anchored(resized_all(g, sizes)),
        same_round(resized_all(g, sizes), g),
        sizes.len() > 0 ==> resized_all(g, sizes).screen_width == clamp_viewport(sizes.last().0),
        sizes.len() > 0 ==> resized_all(g, sizes).screen_height == clamp_viewport(
            sizes.last().1,
        ),
    decreases sizes.len(),
{
    if sizes.len() > 0 {
        lemma_resized_all_any(g, sizes.drop_last());
        lemma_resized(resized_all(g, sizes.drop_last()), sizes.last().0, sizes.last().1);
    }
}

/// The ball never travels against the sign of its velocity, and not at all
/// in a frame of length zero.
pub proof fn lemma_ball_travel_sign(v: int, speed: int, w: int, h: int, dt: int)
    requires
        0 <= speed,
        1 <= w,
        1 <= h,
        valid_dt(dt),
    ensures
        v >= 0 ==> ball_travel(v, speed, w, h, dt) >= 0,
        v <= 0 ==> ball_travel(v, speed, w, h, dt) <= 0,
        v == 0 || dt == 0 ==> ball_travel(v, speed, w, h, dt) == 0,
{
    let k = speed * h * dt;
    let n = v * speed * h * dt;
    let den = w * SCALE * SCALE;
    assert(0 <= k && (dt == 0 ==> k == 0)) by (nonlinear_arith)
        requires
            k == speed * h * dt,
            0 <= speed,
            1 <= h,
            0 <= dt,
    ;
    assert(n == v * k) by (nonlinear_arith)
        requires
            n == v * speed * h * dt,
            k == speed * h * dt,
    ;
    assert((v >= 0 ==> n >= 0) && (v <= 0 ==> n <= 0) && (v == 0 || k == 0 ==> n == 0))
        by (nonlinear_arith)
        requires
            n == v * k,
            0 <= k,
    ;
    assert(den > 0) by (nonlinear_arith)
        requires
            den == w * SCALE * SCALE,
            w >= 1,
    ;
    lemma_trunc_div_bounds(n, den);
}

/// Every frame that is not negative is admitted by a valid match whose
/// counters can both still be raised.
pub proof fn lemma_room_admits(g: GameView, now: int, dt: int)
    requires
        can_score(g),
        valid_dt(dt),
    ensures
        tick_admitted(g, now, dt),
{
}

/// A ball beyond what 64 bits hold is beyond every wall: whether the ball
/// stands where the rules put it or where 64 bits hold it, the walls and the
/// paddles see the same, and resolving the collisions gives the same match
/// and the same events.
pub proof fn lemma_holding_is_unseen(g: GameView, now: int, fresh: Vec2)
    requires
        parts_wf(g),
    ensures
        crossed_left(ball_held(g)) == crossed_left(g),
        crossed_right(ball_held(g)) == crossed_right(g),
        scorer_has_room(ball_held(g)) == scorer_has_room(g),
        walls_resolved(ball_held(g), now, fresh) == walls_resolved(g, now, fresh),
        walls_sounds(ball_held(g), now, fresh) == walls_sounds(g, now, fresh),
        collisions_resolved(ball_held(g), now, fresh) == collisions_resolved(g, now, fresh),
        collision_sounds(ball_held(g), now, fresh) == collision_sounds(g, now, fresh),
        opponent_ticked(ball_held(g)) == ball_held(opponent_ticked(g)),
        parts_wf(ball_held(g)),
{
    let h = ball_held(g);
    assert(wall_x_resolved(h, now, fresh) == wall_x_resolved(g, now, fresh) || (
        wall_x_resolved(h, now, fresh) == h && wall_x_resolved(g, now, fresh) == g));
    assert(walls_resolved(h, now, fresh) == walls_resolved(g, now, fresh));
    assert(wall_y_sounds(wall_x_resolved(h, now, fresh)) == wall_y_sounds(
        wall_x_resolved(g, now, fresh),
    ));
}

/// The player's input keeps a valid match valid, for every frame length.
pub proof fn lemma_player_moved_keeps_valid(g: GameView, input: PlayerInput, dt: int)
    requires
        parts_wf(g),
        valid_dt(dt),
    ensures
        parts_wf(player_moved(g, input, dt)),
        player_moved(g, input, dt).ball_position == g.ball_position,
{
    let stride = player_stride(g, dt);
    assert(g.player_speed * dt >= 0) by (nonlinear_arith)
        requires
            g.player_speed >= 0,
            dt >= 0,
    ;
    lemma_trunc_div_bounds(g.player_speed * dt, SCALE as int);
    assert(0 <= stride);
}

/// Resolving the collisions of a match gives a valid match wherever the
/// ball was: the walls bring it back into the field, and the paddles leave
/// it there.
pub proof fn lemma_collisions_resolved_valid(g: GameView, now: int, fresh: Vec2)
    requires
        parts_wf(g),
        scorer_has_room(g),
        valid_velocity(fresh),
    ensures
        game_wf(walls_resolved(g, now, fresh)),
        game_wf(collisions_resolved(g, now, fresh)),
{
    let walled = walls_resolved(g, now, fresh);
    assert(game_wf(walled));
    let ball_at_player = Vec2 { x: flush_with_player(walled), y: walled.ball_position.y };
    lemma_normalized_bounds(
        vec_sub(ball_at_player, paddle_center(walled.player_position, walled.player_size)),
    );
    let turned = player_hit_resolved(walled);
    assert(game_wf(turned));
    let ball_at_enemy = Vec2 { x: flush_with_enemy(turned), y: turned.ball_position.y };
    lemma_normalized_bounds(
        vec_sub(ball_at_enemy, paddle_center(turned.enemy_ai.position, turned.enemy_ai.size)),
    );
}

/// Validity is an invariant of the match: every tick of a valid match, for
/// every frame length that is not negative and every serve whose components
/// can be negated, gives a valid match, provided that the counter which the
/// tick raises, if any, can still be raised. In particular both paddles stay
/// on their columns and, where the viewport can hold them, inside it.
pub proof fn lemma_tick_keeps_valid(
    g: GameView,
    now: int,
    dt: int,
    input: PlayerInput,
    fresh: Vec2,
)
    requires
        game_wf(g),
        valid_dt(dt),
        !counting_down(g, now) ==> scorer_has_room(ball_advanced(g, dt)),
        valid_velocity(fresh),
    ensures
        game_wf(tick(g, now, dt, input, fresh)),
{
    let gated = GameView { paused: counting_down(g, now), ..g };
    lemma_player_moved_keeps_valid(gated, input, dt);
    let begun = tick_begun(g, now, dt, input);
    if !begun.paused {
        let moved = tick_moved(g, now, dt, input);
        assert(parts_wf(moved));
        assert(scorer_has_room(moved));
        lemma_collisions_resolved_valid(moved, now, fresh);
    }
}

/// Without a point the serve in waiting plays no part: where the frame does
/// not carry the ball beyond a scoring wall, or the countdown runs, a tick
/// and its events are the same for every serve.
pub proof fn lemma_tick_ignores_unused_serve(
    g: GameView,
    now: int,
    dt: int,
    input: PlayerInput,
    fresh: Vec2,
    other: Vec2,
)
    requires
        !tick_crossing(g, now, dt, input),
    ensures
        tick(g, now, dt, input, fresh) == tick(g, now, dt, input, other),
        tick_sounds(g, now, dt, input, fresh) == tick_sounds(g, now, dt, input, other),
{
}

/// Where the frame carries the ball to a place where it touches neither wall
/// nor paddle, the tick of a running match leaves the ball exactly there,
/// `velocity * (speed / (width / height)) * dt` from where it was, with its
/// velocity as it was, the score as it was, and no event.
pub proof fn lemma_free_flight(g: GameView, now: int, dt: int, input: PlayerInput, fresh: Vec2)
    requires
        !counting_down(g, now),
        !tick_crossing(g, now, dt, input),
        !hits_top(tick_moved(g, now, dt, input)),
        !hits_bottom(tick_moved(g, now, dt, input)),
        !player_hit(tick_moved(g, now, dt, input)),
        !enemy_hit(tick_moved(g, now, dt, input)),
    ensures
        tick(g, now, dt, input, fresh) == tick_moved(g, now, dt, input),
        tick(g, now, dt, input, fresh).ball_position == ball_advanced(g, dt).ball_position,
        tick(g, now, dt, input, fresh).ball_velocity == g.ball_velocity,
        tick(g, now, dt, input, fresh).score == g.score,
        tick_sounds(g, now, dt, input, fresh) =~= Seq::<SoundHandle>::empty(),
{
}

/// Resizing keeps a valid match valid, whatever size in pixels is reported.
pub proof fn lemma_resized_keeps_valid(g: GameView, w: int, h: int)
    requires
        game_wf(g),
        w <= i32::MAX,
        h <= i32::MAX,
    ensures
        game_wf(resized(g, w, h)),
{
}

/// A new match is valid.
pub proof fn lemma_initial_game_valid(w: int, h: int)
    requires
        1 <= w <= i32::MAX,
        1 <= h <= i32::MAX,
    ensures
        game_wf(initial_game(w, h)),
        can_score(initial_game(w, h)),
{
}

/// A new match and every repositioned match stand on their anchors.
pub proof fn lemma_anchored_states(g: GameView, w: int, h: int)
    ensures
        is_anchored(initial_game(w, h)),
        is_anchored(repositioned(g)),
{
}

} // verus!
