//! The round engine: it owns the ball, the player's paddle, the opponent and
//! the score, and advances them by one tick per frame.

use crate::ai::{AI, PADDLE_HEIGHT, PADDLE_WIDTH};
use crate::audiosystem::{queue_sfx, SoundHandle, SoundType};
use crate::fixed::{fits_i64, Fixed, SCALE};
pub use crate::gamestate::GameState;
use crate::input::{PlayerInput, STICK_THRESHOLD};
use crate::rules::{
    ball_advanced, ball_collides, ball_held, ball_in_field, ball_travel, held,
    lemma_holding_is_unseen, tick_begun, tick_moved,
    clamp_viewport, collision_outcome, collision_sounds, collisions_resolved, countdown_left,
    counting_down, crossed_left, crossed_right, enemy_hit, enemy_hit_resolved, field_center,
    flush_with_enemy, flush_with_player, game_wf, history_pushed, hit_sounds, hits_bottom,
    hits_top, initial_game,
    lemma_ball_travel_sign, lemma_tick_ignores_unused_serve, lemma_tick_scores_at_most_once,
    nudged, opponent_ticked, parts_wf, player_anchor,
    player_bottom, player_hit, player_hit_resolved, player_moved, reflected, repositioned,
    resized, scorer_has_room, statics_wf, tick, tick_admitted, tick_crossing, tick_outcome,
    tick_sounds, valid_dt, valid_velocity,
    wall_x_resolved, wall_x_sounds, wall_y_sounds, walls_outcome, walls_resolved, walls_sounds,
    wall_y_resolved, GameView, BALL_RADIUS, BALL_SPEED, COUNTDOWN, HISTORY_LEN, PLAYER_MARGIN,
    PLAYER_SPEED,
};
use crate::serve::{
    direction_from_draws, get_random_direction, is_serve_direction, serve_direction,
};
use crate::vectorhelper::{vec_fits, vec_sub, Vec2, Vector2};
use vstd::prelude::*;

verus! {

/// A match in progress.
pub struct Game {
    ball_position: Vector2,
    ball_velocity: Vector2,
    ball_speed: Fixed,
    ball_radius: Fixed,
    ball_position_history: Vec<Vector2>,
    player_position: Vector2,
    player_size: Vector2,
    player_speed: Fixed,
    enemy_ai: AI,
    score: (u32, u32),
    time_since_last_score: Fixed,
    paused: bool,
    screen_width: i32,
    screen_height: i32,
    game_state: GameState,
}

impl View for Game {
    type V = GameView;

    closed spec fn view(&self) -> GameView {
        GameView {
            ball_position: self.ball_position@,
            ball_velocity: self.ball_velocity@,
            ball_speed: self.ball_speed@,
            ball_radius: self.ball_radius@,
            ball_position_history: self.ball_position_history@.map_values(|v: Vector2| v@),
            player_position: self.player_position@,
            player_size: self.player_size@,
            player_speed: self.player_speed@,
            enemy_ai: self.enemy_ai@,
            score: (self.score.0 as int, self.score.1 as int),
            time_since_last_score: self.time_since_last_score@,
            paused: self.paused,
            screen_width: self.screen_width as int,
            screen_height: self.screen_height as int,
            game_state: self.game_state,
        }
    }
}

/// A viewport extent in pixels, raised to one pixel where it is less.
pub fn clamp_dimension(n: i32) -> (r: i32)
    ensures
        r == clamp_viewport(n as int),
        1 <= r,
{
    if n < 1 {
        1
    } else {
        n
    }
}

/// Centre of a viewport of `w` by `h` pixels.
fn center_of(w: i32, h: i32) -> (r: Vector2)
    requires
        1 <= w,
        1 <= h,
    ensures
        r@ == field_center(w as int, h as int),
{
    Vector2 {
        x: Fixed { raw: ((w as i64) * SCALE) / 2 },
        y: Fixed { raw: ((h as i64) * SCALE) / 2 },
    }
}

/// Anchor of the player's paddle in a viewport `h` pixels high.
fn player_anchor_of(h: i32) -> (r: Vector2)
    requires
        1 <= h,
    ensures
        r@ == player_anchor(h as int),
{
    Vector2 {
        x: Fixed { raw: PLAYER_MARGIN },
        y: Fixed { raw: ((h as i64) * SCALE) / 2 - PADDLE_HEIGHT / 2 },
    }
}

/// The paddle's top `y` lies where the engine keeps it for a lowest position
/// `bottom`: inside `[0, bottom]` where that range is not empty.
pub open spec fn paddle_y_ok(y: int, bottom: int) -> bool {
    &&& -PADDLE_HEIGHT <= y
    &&& y <= 0 || y <= bottom
    &&& bottom >= 0 ==> 0 <= y <= bottom
}

/// One movement source applied to the top `y` of the player's paddle.
fn nudge(y: i64, up: bool, down: bool, stride: i128, bottom: i64) -> (r: i64)
    requires
        paddle_y_ok(y as int, bottom as int),
        -PADDLE_HEIGHT < bottom,
        0 <= stride <= 0x7fff_ffff_ffff_ffff * 2_000,
    ensures
        r == nudged(y as int, up, down, stride as int, bottom as int),
        paddle_y_ok(r as int, bottom as int),
{
    let top: i128 = y as i128;
    if up {
        if top - stride >= 0 {
            (top - stride) as i64
        } else {
            0
        }
    } else if down {
        if top + stride <= (bottom as i128) {
            (top + stride) as i64
        } else {
            bottom
        }
    } else {
        y
    }
}

/// Magnitude of the distance that a ball of velocity component `v` covers in
/// a frame of length `dt` on a viewport of `w` by `h` pixels, or `None` where
/// it is more than twice what a [`Fixed`] can hold.
fn travel_magnitude(v: Fixed, speed: Fixed, w: i32, h: i32, dt: Fixed) -> (r: Option<u128>)
    requires
        0 <= speed@,
        1 <= w,
        1 <= h,
        valid_dt(dt@),
    ensures
        r matches Some(q) ==> {
            &&& v@ >= 0 ==> ball_travel(v@, speed@, w as int, h as int, dt@) == q
            &&& v@ < 0 ==> ball_travel(v@, speed@, w as int, h as int, dt@) == -q
        },
        r is None ==> {
            &&& v@ > 0 ==> ball_travel(v@, speed@, w as int, h as int, dt@)
                > 0x1_0000_0000_0000_0000
            &&& v@ < 0 ==> ball_travel(v@, speed@, w as int, h as int, dt@)
                < -0x1_0000_0000_0000_0000
            &&& v@ != 0
        },
{
    let wide: i128 = v.raw as i128;
    let magnitude: u128 = if wide < 0 { (-wide) as u128 } else { wide as u128 };
    let s: u128 = speed.raw as u128;
    let hh: u128 = h as u128;
    let d: u128 = dt.raw as u128;
    let unit: u128 = 1_000_000;
    assert(magnitude * s <= 0x8000_0000_0000_0000 * 0x8000_0000_0000_0000) by (nonlinear_arith)
        requires
            0 <= magnitude <= 0x8000_0000_0000_0000,
            0 <= s <= 0x8000_0000_0000_0000,
    ;
    // the velocity times the speed, split into whole units and the rest
    let a: u128 = magnitude * s;
    let whole: u128 = a / unit;
    let part: u128 = a % unit;
    assert(part * hh <= 999_999 * 0x7fff_ffff) by (nonlinear_arith)
        requires
            0 <= part <= 999_999,
            0 <= hh <= 0x7fff_ffff,
    ;
    let part_high: u128 = part * hh;
    assert(part_high * d <= 2_147_481_499_516_353 * 0x7fff_ffff_ffff_ffff) by (nonlinear_arith)
        requires
            0 <= part_high <= 2_147_481_499_516_353,
            0 <= d <= 0x7fff_ffff_ffff_ffff,
    ;
    let carried: u128 = (part_high * d) / unit;
    let den: u128 = unit * (w as u128);
    let ghost n = v@ * speed@ * (h as int) * dt@;
    let ghost product = (a as int) * (hh as int) * (d as int);
    let ghost upper = (whole as int) * (hh as int) * (d as int);
    let ghost lower = (part as int) * (hh as int) * (d as int);
    proof {
        assert(w * SCALE * SCALE == unit * den) by (nonlinear_arith)
            requires
                den == unit * w,
                unit == 1_000_000,
                SCALE == 1_000_000,
        ;
        if wide < 0 {
            assert(n == -product) by (nonlinear_arith)
                requires
                    n == v@ * speed@ * (h as int) * dt@,
                    product == (a as int) * (hh as int) * (d as int),
                    a == magnitude * s,
                    magnitude == -v@,
                    s == speed@,
                    hh == h,
                    d == dt@,
            ;
        } else {
            assert(n == product) by (nonlinear_arith)
                requires
                    n == v@ * speed@ * (h as int) * dt@,
                    product == (a as int) * (hh as int) * (d as int),
                    a == magnitude * s,
                    magnitude == v@,
                    s == speed@,
                    hh == h,
                    d == dt@,
            ;
        }
        assert(product >= 0 && upper >= 0 && lower >= 0 && (d == 0 ==> product == 0))
            by (nonlinear_arith)
            requires
                product == (a as int) * (hh as int) * (d as int),
                upper == (whole as int) * (hh as int) * (d as int),
                lower == (part as int) * (hh as int) * (d as int),
                a >= 0,
                whole >= 0,
                part >= 0,
                hh >= 0,
                d >= 0,
        ;
        // product / unit == upper + lower / unit
        vstd::arithmetic::div_mod::lemma_fundamental_div_mod(a as int, unit as int);
        assert(product == lower + upper * unit) by (nonlinear_arith)
            requires
                a == unit * whole + part,
                product == (a as int) * (hh as int) * (d as int),
                upper == (whole as int) * (hh as int) * (d as int),
                lower == (part as int) * (hh as int) * (d as int),
        ;
        vstd::arithmetic::div_mod::lemma_hoist_over_denominator(lower, upper, unit as nat);
        // (product / unit) / den == product / (unit * den)
        vstd::arithmetic::div_mod::lemma_div_denominator(product, unit as int, den as int);
        assert(lower == part_high * d) by (nonlinear_arith)
            requires
                lower == (part as int) * (hh as int) * (d as int),
                part_high == part * hh,
        ;
        assert(0 <= lower / (unit as int));
    }
    if d == 0 {
        return Some(0);
    }
    let ghost true_quotient = product / ((unit * den) as int);
    assert(true_quotient == (upper + lower / (unit as int)) / (den as int));
    proof {
        // the distance is the quotient with the sign of the velocity
        assert(magnitude == 0 ==> product == 0 && upper == 0) by (nonlinear_arith)
            requires
                product == (a as int) * (hh as int) * (d as int),
                upper == (whole as int) * (hh as int) * (d as int),
                a == magnitude * s,
                whole == a / unit,
                unit == 1_000_000,
        ;
        assert(0int / ((unit * den) as int) == 0);
        assert(lower / (unit as int) <= 0xffff_ffff_ffff_ffff_ffff_ffff_ffff_ffff);
    }
    let whole_high: u128 = match whole.checked_mul(hh) {
        Some(x) => x,
        None => {
            proof {
                assert(upper > 0xffff_ffff_ffff_ffff_ffff_ffff_ffff_ffff) by (nonlinear_arith)
                    requires
                        upper == (whole as int) * (hh as int) * (d as int),
                        whole * hh > 0xffff_ffff_ffff_ffff_ffff_ffff_ffff_ffff,
                        d >= 1,
                ;
                lemma_far_beyond(upper + lower / (unit as int), den as int);
            }
            return None;
        },
    };
    let high: u128 = match whole_high.checked_mul(d) {
        Some(x) => x,
        None => {
            proof {
                assert(upper == whole_high * d) by (nonlinear_arith)
                    requires
                        upper == (whole as int) * (hh as int) * (d as int),
                        whole_high == whole * hh,
                ;
                lemma_far_beyond(upper + lower / (unit as int), den as int);
            }
            return None;
        },
    };
    proof {
        assert(upper == high) by (nonlinear_arith)
            requires
                upper == (whole as int) * (hh as int) * (d as int),
                whole_high == whole * hh,
                high == whole_high * d,
        ;
    }
    let sum: u128 = match high.checked_add(carried) {
        Some(x) => x,
        None => {
            proof {
                lemma_far_beyond(upper + lower / (unit as int), den as int);
            }
            return None;
        },
    };
    let q: u128 = sum / den;
    assert(q == true_quotient);
    Some(q)
}

/// Distance that a ball of velocity component `v` covers in a frame of length
/// `dt` on a viewport of `w` by `h` pixels, or `None` where that distance is
/// more than a [`Fixed`] can hold. Every velocity, every speed and frame
/// length that is not negative, and every viewport is taken.
pub fn checked_travel(v: Fixed, speed: Fixed, w: i32, h: i32, dt: Fixed) -> (r: Option<Fixed>)
    requires
        0 <= speed@,
        1 <= w,
        1 <= h,
        valid_dt(dt@),
    ensures
        r.is_some() == fits_i64(ball_travel(v@, speed@, w as int, h as int, dt@)),
        r matches Some(t) ==> t@ == ball_travel(v@, speed@, w as int, h as int, dt@),
{
    match travel_magnitude(v, speed, w, h, dt) {
        None => None,
        Some(q) => {
            if v.raw < 0 {
                if q > 0x8000_0000_0000_0000 {
                    None
                } else {
                    let back: i128 = -(q as i128);
                    Some(Fixed { raw: back as i64 })
                }
            } else {
                if q > 0x7fff_ffff_ffff_ffff {
                    None
                } else {
                    Some(Fixed { raw: q as i64 })
                }
            }
        },
    }
}

/// Where a ball at the coordinate `position` stands after a frame of length
/// `dt`, as far as 64 bits hold it.
fn held_advance(position: Fixed, v: Fixed, speed: Fixed, w: i32, h: i32, dt: Fixed) -> (r: Fixed)
    requires
        0 <= speed@,
        1 <= w,
        1 <= h,
        valid_dt(dt@),
    ensures
        r@ == held(position@ + ball_travel(v@, speed@, w as int, h as int, dt@)),
{
    let far: u128 = 0x1_0000_0000_0000_0000;
    match travel_magnitude(v, speed, w, h, dt) {
        Some(q) => {
            if q <= far {
                let way: i128 = if v.raw < 0 { -(q as i128) } else { q as i128 };
                let reached: i128 = (position.raw as i128) + way;
                if reached < (i64::MIN as i128) {
                    Fixed { raw: i64::MIN }
                } else if reached > (i64::MAX as i128) {
                    Fixed { raw: i64::MAX }
                } else {
                    Fixed { raw: reached as i64 }
                }
            } else if v.raw < 0 {
                Fixed { raw: i64::MIN }
            } else {
                Fixed { raw: i64::MAX }
            }
        },
        None => {
            if v.raw < 0 {
                Fixed { raw: i64::MIN }
            } else {
                Fixed { raw: i64::MAX }
            }
        },
    }
}

/// A dividend beyond 128 bits, divided by what a viewport's width can make
/// the divisor, gives a quotient beyond 65 bits.
proof fn lemma_far_beyond(dividend: int, divisor: int)
    requires
        dividend > 0xffff_ffff_ffff_ffff_ffff_ffff_ffff_ffff,
        0 < divisor <= 1_000_000 * 0x7fff_ffff,
    ensures
        dividend / divisor > 0x1_0000_0000_0000_0000,
{
    assert(dividend / divisor > 0x1_0000_0000_0000_0000) by (nonlinear_arith)
        requires
            dividend > 0xffff_ffff_ffff_ffff_ffff_ffff_ffff_ffff,
            0 < divisor <= 2_147_483_647_000_000,
    ;
}

/// Distance that a ball of velocity component `v` covers in a frame of length
/// `dt` on a viewport of `w` by `h` pixels: never against the sign of `v`.
pub fn travel(v: Fixed, speed: Fixed, w: i32, h: i32, dt: Fixed) -> (r: Fixed)
    requires
        0 <= speed@,
        1 <= w,
        1 <= h,
        valid_dt(dt@),
        fits_i64(ball_travel(v@, speed@, w as int, h as int, dt@)),
    ensures
        r@ == ball_travel(v@, speed@, w as int, h as int, dt@),
        v@ >= 0 ==> r@ >= 0,
        v@ <= 0 ==> r@ <= 0,
        v@ == 0 || dt@ == 0 ==> r@ == 0,
{
    proof {
        lemma_ball_travel_sign(v@, speed@, w as int, h as int, dt@);
    }
    checked_travel(v, speed, w, h, dt).unwrap()
}

/// Whether the ball hits a paddle: its bounding square overlaps the paddle's
/// rectangle and it travels towards the paddle, leftwards for the player's
/// (`is_player`), rightwards for the opponent's.
pub fn check_ball_collision(
    ball_position: Vector2,
    ball_radius: Fixed,
    ball_velocity: Vector2,
    player_position: Vector2,
    player_size: Vector2,
    is_player: bool,
) -> (hit: bool)
    ensures
        hit == ball_collides(
            ball_position@,
            ball_radius@,
            ball_velocity@,
            player_position@,
            player_size@,
            is_player,
        ),
{
    let bx: i128 = ball_position.x.raw as i128;
    let by: i128 = ball_position.y.raw as i128;
    let r: i128 = ball_radius.raw as i128;
    let px: i128 = player_position.x.raw as i128;
    let py: i128 = player_position.y.raw as i128;
    let sx: i128 = player_size.x.raw as i128;
    let sy: i128 = player_size.y.raw as i128;
    if bx - r < px + sx && bx + r > px && by - r < py + sy && by + r > py && (is_player
        && ball_velocity.x.raw < 0 || !is_player && ball_velocity.x.raw > 0) {
        return true;
    }
    return false;
}

/// Velocity of the ball after it hit a paddle with the given centre: the
/// horizontal component is negated, and the vertical one steers by where the
/// paddle was hit.
pub fn reflect_ball(v_in: Vector2, ball_position: Vector2, paddle_center: Vector2) -> (v_out: Vector2)
    requires
        v_in@.x > i64::MIN,
        vec_fits(vec_sub(ball_position@, paddle_center@)),
    ensures
        v_out@ == reflected(v_in@, ball_position@, paddle_center@),
        v_out@.x == -v_in@.x,
        -SCALE <= v_out@.y <= SCALE,
{
    let diff: Vector2 = ball_position.sub(paddle_center).normalized();
    Vector2 { x: v_in.x.neg(), y: diff.y.neg() }
}

impl Game {
    /// The invariant of the type between two ticks.
    pub open spec fn wf(&self) -> bool {
        game_wf(self@)
    }

    /// A new match for a viewport of the given size in pixels, each extent
    /// raised to 1 where it is less: ball in the centre, paddles on their
    /// anchors, no points, the credits screen showing.
    pub fn new(screen_width: i32, screen_height: i32) -> (game: Game)
        ensures
            game@ == initial_game(clamp_viewport(screen_width as int), clamp_viewport(screen_height as int)),
            game.wf(),
    {
        let w: i32 = clamp_dimension(screen_width);
        let h: i32 = clamp_dimension(screen_height);
        let center: Vector2 = center_of(w, h);
        let mut history: Vec<Vector2> = Vec::new();
        let mut i: usize = 0;
        while i < HISTORY_LEN
            invariant
                i <= HISTORY_LEN,
                history@.len() == i,
                forall|k: int| 0 <= k < i ==> history@[k] == center,
            decreases HISTORY_LEN - i,
        {
            history.push(center);
            i = i + 1;
        }
        let game = Game {
            ball_position: center,
            ball_velocity: Vector2 { x: Fixed { raw: -(SCALE / 2) }, y: Fixed { raw: -SCALE } },
            ball_speed: Fixed { raw: BALL_SPEED },
            ball_radius: Fixed { raw: BALL_RADIUS },
            ball_position_history: history,
            player_position: player_anchor_of(h),
            player_size: Vector2 { x: Fixed { raw: PADDLE_WIDTH }, y: Fixed { raw: PADDLE_HEIGHT } },
            player_speed: Fixed { raw: PLAYER_SPEED },
            enemy_ai: AI::new(Fixed::from_int(w), Fixed::from_int(h)),
            score: (0, 0),
            time_since_last_score: Fixed { raw: 0 },
            paused: true,
            screen_width: w,
            screen_height: h,
            game_state: GameState::Credits,
        };
        assert(game@.ball_position_history =~= initial_game(w as int, h as int).ball_position_history);
        game
    }

    /// Takes the viewport size reported for this frame, each extent raised to
    /// 1 where it is less. Where it differs from the current size, the
    /// paddles and the ball are put back on their anchors; velocity, score
    /// and countdown are never touched.
    pub fn set_screen_size(&mut self, width: i32, height: i32)
        requires
            old(self).wf(),
        ensures
            final(self)@ == resized(old(self)@, width as int, height as int),
            final(self).wf(),
    {
        let w: i32 = clamp_dimension(width);
        let h: i32 = clamp_dimension(height);
        if self.screen_width != w || self.screen_height != h {
            self.screen_width = w;
            self.screen_height = h;
            self.reposition_entities();
        }
    }

    /// Puts both paddles on their anchors and the ball in the centre of the
    /// current viewport.
    pub fn reposition_entities(&mut self)
        requires
            statics_wf(old(self)@),
        ensures
            final(self)@ == repositioned(old(self)@),
            final(self).wf(),
    {
        self.player_position = player_anchor_of(self.screen_height);
        self.enemy_ai.update_screen_size(
            Fixed::from_int(self.screen_width),
            Fixed::from_int(self.screen_height),
        );
        self.ball_position = center_of(self.screen_width, self.screen_height);
    }

    /// Sets the pause flag for the time `now`: the match is paused while
    /// less than [`COUNTDOWN`] has passed since the last point.
    pub fn countdown(&mut self, now: Fixed)
        ensures
            final(self)@ == (GameView { paused: counting_down(old(self)@, now@), ..old(self)@ }),
    {
        let elapsed: i128 = (now.raw as i128) - (self.time_since_last_score.raw as i128);
        self.paused = elapsed < (COUNTDOWN as i128);
    }

    /// Applies the player's input of one frame, however long the frame: every
    /// movement source that is held moves the paddle by
    /// `player_speed * delta_time`, up but not above the top of the viewport,
    /// or down but not below its bottom. Also records the ball's position in
    /// the history, dropping the oldest entry. The paddle ends inside the
    /// viewport wherever the viewport can hold it, and nothing but the paddle
    /// and the history changes.
    pub fn update_player_movement(&mut self, input: &PlayerInput, delta_time: Fixed)
        requires
            parts_wf(old(self)@),
            valid_dt(delta_time@),
        ensures
            final(self)@ == player_moved(old(self)@, *input, delta_time@),
            parts_wf(final(self)@),
            player_bottom(final(self)@) >= 0 ==> 0 <= final(self)@.player_position.y
                <= player_bottom(final(self)@),
            final(self)@.player_position.x == old(self)@.player_position.x,
            final(self)@ == (GameView {
                player_position: final(self)@.player_position,
                ball_position_history: final(self)@.ball_position_history,
                ..old(self)@
            }),
    {
        self.ball_position_history.pop();
        self.ball_position_history.insert(0, self.ball_position);
        proof {
            assert(self@.ball_position_history =~= history_pushed(
                old(self)@.ball_position_history,
                old(self)@.ball_position,
            ));
        }
        proof {
            let speed = self.player_speed@;
            let product = speed * delta_time@;
            assert(0 <= product <= 2_000_000_000 * 0x7fff_ffff_ffff_ffff) by (nonlinear_arith)
                requires
                    product == speed * delta_time@,
                    speed == 2_000_000_000,
                    0 <= delta_time@ <= 0x7fff_ffff_ffff_ffff,
            ;
        }
        let stride: i128 = ((self.player_speed.raw as i128) * (delta_time.raw as i128)) / (SCALE
            as i128);
        let bottom: i64 = (self.screen_height as i64) * SCALE - self.player_size.y.raw;
        let mut y: i64 = self.player_position.y.raw;

        // first key pair
        y = nudge(y, input.key_w, input.key_s, stride, bottom);

        // second key pair
        y = nudge(y, input.key_up, input.key_down, stride, bottom);

        // gamepad: left stick, then directional pad
        match input.gamepad {
            Some(pad) => {
                y = nudge(
                    y,
                    pad.left_stick_y.raw < -STICK_THRESHOLD,
                    pad.left_stick_y.raw > STICK_THRESHOLD,
                    stride,
                    bottom,
                );
                y = nudge(y, pad.dpad_up, pad.dpad_down, stride, bottom);
            },
            None => {},
        }
        self.player_position = Vector2 { x: self.player_position.x, y: Fixed { raw: y } };
    }

    /// Moves the ball along its velocity for a frame of length `delta_time`,
    /// as far as 64 bits hold its position.
    fn advance_ball(&mut self, delta_time: Fixed)
        requires
            parts_wf(old(self)@),
            valid_dt(delta_time@),
        ensures
            final(self)@ == ball_held(ball_advanced(old(self)@, delta_time@)),
            parts_wf(final(self)@),
    {
        let x: Fixed = held_advance(
            self.ball_position.x,
            self.ball_velocity.x,
            self.ball_speed,
            self.screen_width,
            self.screen_height,
            delta_time,
        );
        let y: Fixed = held_advance(
            self.ball_position.y,
            self.ball_velocity.y,
            self.ball_speed,
            self.screen_width,
            self.screen_height,
            delta_time,
        );
        self.ball_position = Vector2 { x, y };
    }

    /// Shows the opponent the ball and lets it make its tracking step.
    fn tick_opponent(&mut self)
        requires
            parts_wf(old(self)@),
        ensures
            final(self)@ == opponent_ticked(old(self)@),
            parts_wf(final(self)@),
    {
        self.enemy_ai.update_ball(
            self.ball_position,
            self.ball_velocity,
            self.ball_speed,
            self.ball_radius,
        );
        self.enemy_ai.update();
    }

    /// Whether the ball has left the field on either side.
    fn ball_left_field(&self) -> (out: bool)
        requires
            parts_wf(self@),
        ensures
            out == (crossed_left(self@) || crossed_right(self@)),
    {
        let half_radius: i64 = self.ball_radius.raw / 2;
        let right_edge: i64 = (self.screen_width as i64) * SCALE;
        self.ball_position.x.raw < -half_radius || self.ball_position.x.raw > right_edge
            + half_radius
    }

    /// Checks the walls, where a serve, if one follows, leaves in the
    /// direction `fresh`.
    ///
    /// Scoring walls first: a ball beyond the left edge by more than half its
    /// radius is a point for the opponent, one beyond the right edge a point
    /// for the player. Either raises exactly that counter by one, puts the
    /// ball in the centre with velocity `fresh`, starts the countdown at
    /// `now` and queues the scorer's event.
    ///
    /// Then the bouncing walls: a ball that reaches over the top or bottom
    /// wall is put back against it exactly, its vertical velocity is negated,
    /// and a bounce is queued.
    pub fn check_wall_collision_with(
        &mut self,
        now: Fixed,
        fresh: Vector2,
        sounds: &mut Vec<SoundHandle>,
    )
        requires
            parts_wf(old(self)@),
            scorer_has_room(old(self)@),
            valid_velocity(fresh@),
        ensures
            final(self)@ == walls_resolved(old(self)@, now@, fresh@),
            final(sounds)@ == old(sounds)@ + walls_sounds(old(self)@, now@, fresh@),
            final(self).wf(),
            crossed_left(old(self)@) ==> final(self)@.score == (
                old(self)@.score.0,
                old(self)@.score.1 + 1,
            ),
            !crossed_left(old(self)@) && crossed_right(old(self)@) ==> final(self)@.score == (
                old(self)@.score.0 + 1,
                old(self)@.score.1,
            ),
            crossed_left(old(self)@) || crossed_right(old(self)@) ==> {
                &&& final(self)@.time_since_last_score == now@
                &&& final(self)@.ball_position.x == field_center(
                    old(self)@.screen_width,
                    old(self)@.screen_height,
                ).x
            },
            !crossed_left(old(self)@) && !crossed_right(old(self)@) ==> {
                &&& final(self)@.score == old(self)@.score
                &&& final(self)@.time_since_last_score == old(self)@.time_since_last_score
            },
            ({
                let scored = wall_x_resolved(old(self)@, now@, fresh@);
                let bottom = old(self)@.screen_height * SCALE - BALL_RADIUS;
                &&& hits_top(scored) ==> {
                    &&& final(self)@.ball_position.y == BALL_RADIUS
                    &&& final(self)@.ball_velocity.y == -scored.ball_velocity.y
                }
                &&& !hits_top(scored) && hits_bottom(scored) ==> {
                    &&& final(self)@.ball_position.y == bottom
                    &&& final(self)@.ball_velocity.y == -scored.ball_velocity.y
                }
                &&& !hits_top(scored) && !hits_bottom(scored) ==> final(self)@ == scored
                &&& final(self)@.ball_position.x == scored.ball_position.x
                &&& final(self)@.ball_velocity.x == scored.ball_velocity.x
            }),
    {
        let half_radius: i64 = self.ball_radius.raw / 2;
        let right_edge: i64 = (self.screen_width as i64) * SCALE;
        let bottom_edge: i64 = (self.screen_height as i64) * SCALE;
        if self.ball_position.x.raw < -half_radius {
            self.ball_position = center_of(self.screen_width, self.screen_height);
            self.ball_velocity = fresh;
            self.score = (self.score.0, self.score.1 + 1);
            self.time_since_last_score = now;
            queue_sfx(sounds, SoundType::OpponentScored);
        } else if self.ball_position.x.raw > right_edge + half_radius {
            self.ball_position = center_of(self.screen_width, self.screen_height);
            self.ball_velocity = fresh;
            self.score = (self.score.0 + 1, self.score.1);
            self.time_since_last_score = now;
            queue_sfx(sounds, SoundType::PlayerScored);
        }
        assert(self@ == wall_x_resolved(old(self)@, now@, fresh@));
        assert(sounds@ =~= old(sounds)@ + wall_x_sounds(old(self)@));
        let ghost after_x = sounds@;

        if self.ball_position.y.raw < self.ball_radius.raw {
            self.ball_position = Vector2 { x: self.ball_position.x, y: self.ball_radius };
            self.ball_velocity = Vector2 {
                x: self.ball_velocity.x,
                y: Fixed { raw: -self.ball_velocity.y.raw },
            };
            queue_sfx(sounds, SoundType::Bounce);
        } else if self.ball_position.y.raw > bottom_edge - self.ball_radius.raw {
            self.ball_position = Vector2 {
                x: self.ball_position.x,
                y: Fixed { raw: bottom_edge - self.ball_radius.raw },
            };
            self.ball_velocity = Vector2 {
                x: self.ball_velocity.x,
                y: Fixed { raw: -self.ball_velocity.y.raw },
            };
            queue_sfx(sounds, SoundType::Bounce);
        }
        assert(sounds@ =~= after_x + wall_y_sounds(wall_x_resolved(old(self)@, now@, fresh@)));
        assert(sounds@ =~= old(sounds)@ + walls_sounds(old(self)@, now@, fresh@));
    }

    /// Checks the player's paddle. On a hit the ball is put flush with the
    /// paddle's right face, its horizontal velocity is negated, its vertical
    /// velocity steers by where the paddle was hit, and a bounce is queued.
    pub fn check_player_collision(&mut self, sounds: &mut Vec<SoundHandle>)
        requires
            old(self).wf(),
        ensures
            final(self)@ == player_hit_resolved(old(self)@),
            final(sounds)@ == old(sounds)@ + hit_sounds(player_hit(old(self)@)),
            final(self).wf(),
            player_hit(old(self)@) ==> {
                &&& final(self)@.ball_position.x == flush_with_player(old(self)@)
                &&& final(self)@.ball_position.x - final(self)@.ball_radius
                    == final(self)@.player_position.x + final(self)@.player_size.x
                &&& final(self)@.ball_velocity.x == -old(self)@.ball_velocity.x
                &&& final(self)@.ball_velocity.x > 0
            },
            !player_hit(old(self)@) ==> final(self)@ == old(self)@,
    {
        let collided: bool = check_ball_collision(
            self.ball_position,
            self.ball_radius,
            self.ball_velocity,
            self.player_position,
            self.player_size,
            true,
        );
        if collided {
            // set ball position to the edge of the player
            self.ball_position = Vector2 {
                x: Fixed {
                    raw: self.player_position.x.raw + self.player_size.x.raw
                        + self.ball_radius.raw,
                },
                y: self.ball_position.y,
            };
            let center: Vector2 = Vector2 {
                x: Fixed { raw: self.player_position.x.raw + self.player_size.x.raw / 2 },
                y: Fixed { raw: self.player_position.y.raw + self.player_size.y.raw / 2 },
            };
            self.ball_velocity = reflect_ball(self.ball_velocity, self.ball_position, center);
            queue_sfx(sounds, SoundType::Bounce);
        }
        assert(sounds@ =~= old(sounds)@ + hit_sounds(player_hit(old(self)@)));
    }

    /// Checks the opponent's paddle. On a hit the ball is put flush with the
    /// paddle's left face, its horizontal velocity is negated, its vertical
    /// velocity steers by where the paddle was hit, and a bounce is queued.
    pub fn check_enemy_collision(&mut self, sounds: &mut Vec<SoundHandle>)
        requires
            old(self).wf(),
        ensures
            final(self)@ == enemy_hit_resolved(old(self)@),
            final(sounds)@ == old(sounds)@ + hit_sounds(enemy_hit(old(self)@)),
            final(self).wf(),
            enemy_hit(old(self)@) ==> {
                &&& final(self)@.ball_position.x == flush_with_enemy(old(self)@)
                &&& final(self)@.ball_position.x + final(self)@.ball_radius
                    == final(self)@.enemy_ai.position.x
                &&& final(self)@.ball_velocity.x == -old(self)@.ball_velocity.x
                &&& final(self)@.ball_velocity.x < 0
            },
            !enemy_hit(old(self)@) ==> final(self)@ == old(self)@,
    {
        let paddle: Vector2 = self.enemy_ai.position();
        let size: Vector2 = self.enemy_ai.size();
        let collided: bool = check_ball_collision(
            self.ball_position,
            self.ball_radius,
            self.ball_velocity,
            paddle,
            size,
            false,
        );
        if collided {
            // set ball position to the edge of the enemy
            self.ball_position = Vector2 {
                x: Fixed { raw: paddle.x.raw - self.ball_radius.raw },
                y: self.ball_position.y,
            };
            let center: Vector2 = Vector2 {
                x: Fixed { raw: paddle.x.raw + size.x.raw / 2 },
                y: Fixed { raw: paddle.y.raw + size.y.raw / 2 },
            };
            self.ball_velocity = reflect_ball(self.ball_velocity, self.ball_position, center);
            queue_sfx(sounds, SoundType::Bounce);
        }
        assert(sounds@ =~= old(sounds)@ + hit_sounds(enemy_hit(old(self)@)));
    }

    /// Resolves all collisions in their fixed order (scoring walls, bouncing
    /// walls, player's paddle, opponent's paddle), where a serve, if one
    /// follows, leaves in the direction `fresh`.
    pub fn check_collision_with(
        &mut self,
        now: Fixed,
        fresh: Vector2,
        sounds: &mut Vec<SoundHandle>,
    )
        requires
            parts_wf(old(self)@),
            scorer_has_room(old(self)@),
            valid_velocity(fresh@),
        ensures
            final(self)@ == collisions_resolved(old(self)@, now@, fresh@),
            final(sounds)@ == old(sounds)@ + collision_sounds(old(self)@, now@, fresh@),
            final(self).wf(),
    {
        self.check_wall_collision_with(now, fresh, sounds);
        self.check_player_collision(sounds);
        self.check_enemy_collision(sounds);
        assert(sounds@ =~= old(sounds)@ + collision_sounds(old(self)@, now@, fresh@));
    }

    /// Checks the walls as [`Game::check_wall_collision_with`] does, with a
    /// serve drawn at random where a point was scored. Wherever the ball
    /// was, it ends between the top and the bottom wall where the viewport
    /// is high enough to hold it; without a point nothing is left to chance.
    pub fn check_wall_collision(&mut self, now: Fixed, sounds: &mut Vec<SoundHandle>)
        requires
            parts_wf(old(self)@),
            scorer_has_room(old(self)@),
        ensures
            final(self).wf(),
            exists|fresh: Vec2|
                is_serve_direction(fresh) && #[trigger] walls_outcome(
                    old(self)@,
                    final(self)@,
                    old(sounds)@,
                    final(sounds)@,
                    now@,
                    fresh,
                ),
            crossed_left(old(self)@) ==> final(self)@.score == (
                old(self)@.score.0,
                old(self)@.score.1 + 1,
            ),
            !crossed_left(old(self)@) && crossed_right(old(self)@) ==> final(self)@.score == (
                old(self)@.score.0 + 1,
                old(self)@.score.1,
            ),
            crossed_left(old(self)@) || crossed_right(old(self)@) ==> {
                &&& final(self)@.time_since_last_score == now@
                &&& final(self)@.ball_position.x == field_center(
                    old(self)@.screen_width,
                    old(self)@.screen_height,
                ).x
            },
            !crossed_left(old(self)@) && !crossed_right(old(self)@) ==> {
                &&& final(self)@ == wall_y_resolved(old(self)@)
                &&& final(sounds)@ == old(sounds)@ + wall_y_sounds(old(self)@)
            },
            old(self)@.screen_height * SCALE >= 2 * BALL_RADIUS ==> {
                BALL_RADIUS <= final(self)@.ball_position.y <= old(self)@.screen_height * SCALE
                    - BALL_RADIUS
            },
    {
        let scored: bool = self.ball_left_field();
        let fresh: Vector2 = if scored {
            get_random_direction()
        } else {
            direction_from_draws(0, false, false)
        };
        self.check_wall_collision_with(now, fresh, sounds);
        assert(walls_outcome(old(self)@, self@, old(sounds)@, sounds@, now@, fresh@));
        assert(!scored ==> sounds@ =~= old(sounds)@ + wall_y_sounds(old(self)@));
    }

    /// Resolves all collisions as [`Game::check_collision_with`] does, with a
    /// serve drawn at random where a point was scored.
    pub fn check_collision(&mut self, now: Fixed, sounds: &mut Vec<SoundHandle>)
        requires
            parts_wf(old(self)@),
            scorer_has_room(old(self)@),
        ensures
            final(self).wf(),
            exists|fresh: Vec2|
                is_serve_direction(fresh) && #[trigger] collision_outcome(
                    old(self)@,
                    final(self)@,
                    old(sounds)@,
                    final(sounds)@,
                    now@,
                    fresh,
                ),
    {
        self.check_wall_collision(now, sounds);
        let ghost after_walls = self@;
        let ghost walls_end = sounds@;
        self.check_player_collision(sounds);
        self.check_enemy_collision(sounds);
        proof {
            let fresh = choose|fresh: Vec2|
                is_serve_direction(fresh) && #[trigger] walls_outcome(
                    old(self)@,
                    after_walls,
                    old(sounds)@,
                    walls_end,
                    now@,
                    fresh,
                );
            assert(sounds@ =~= old(sounds)@ + collision_sounds(old(self)@, now@, fresh));
            assert(collision_outcome(old(self)@, self@, old(sounds)@, sounds@, now@, fresh));
        }
    }

    /// One tick at time `now` for a frame of length `delta_time`, where a
    /// serve, if the tick leads to one, leaves in the direction `fresh`.
    ///
    /// The pause flag is set, then the player's input is applied. While
    /// the countdown runs nothing else happens. Otherwise the ball moves, the
    /// opponent is shown the ball and makes its step, and all collisions are
    /// resolved; their events are appended to `sounds`.
    pub fn step(
        &mut self,
        now: Fixed,
        delta_time: Fixed,
        input: &PlayerInput,
        fresh: Vector2,
        sounds: &mut Vec<SoundHandle>,
    )
        requires
            old(self).wf(),
            tick_admitted(old(self)@, now@, delta_time@),
            valid_velocity(fresh@),
        ensures
            final(self)@ == tick(old(self)@, now@, delta_time@, *input, fresh@),
            final(sounds)@ == old(sounds)@ + tick_sounds(
                old(self)@,
                now@,
                delta_time@,
                *input,
                fresh@,
            ),
            final(self).wf(),
    {
        self.countdown(now);
        self.update_player_movement(input, delta_time);
        if self.paused {
            assert(sounds@ =~= old(sounds)@ + tick_sounds(
                old(self)@,
                now@,
                delta_time@,
                *input,
                fresh@,
            ));
            return ;
        }
        self.advance_ball(delta_time);
        self.tick_opponent();
        proof {
            let moved = tick_moved(old(self)@, now@, delta_time@, *input);
            lemma_holding_is_unseen(
                ball_advanced(tick_begun(old(self)@, now@, delta_time@, *input), delta_time@),
                now@,
                fresh@,
            );
            assert(self@ == ball_held(moved));
            lemma_holding_is_unseen(moved, now@, fresh@);
        }
        self.check_collision_with(now, fresh, sounds);
    }

    /// One tick at time `now` for a frame of length `delta_time`: what
    /// [`Game::step`] does, with a serve drawn at random where a point was
    /// scored.
    ///
    /// While the countdown runs, the ball and the opponent stay as they are,
    /// however long the frame. The player's paddle ends inside the viewport
    /// wherever the viewport can hold it. No counter of the score ever falls,
    /// at most one of them rises, by one, and then the countdown starts anew
    /// at `now`. Without a point nothing is left to chance.
    ///
    /// [`Game::admits`] tells whether a tick is admitted.
    pub fn update(
        &mut self,
        now: Fixed,
        delta_time: Fixed,
        input: &PlayerInput,
        sounds: &mut Vec<SoundHandle>,
    )
        requires
            old(self).wf(),
            tick_admitted(old(self)@, now@, delta_time@),
        ensures
            final(self).wf(),
            exists|fresh: Vec2|
                is_serve_direction(fresh) && #[trigger] tick_outcome(
                    old(self)@,
                    final(self)@,
                    old(sounds)@,
                    final(sounds)@,
                    now@,
                    delta_time@,
                    *input,
                    fresh,
                ),
            final(self)@.paused == counting_down(old(self)@, now@),
            counting_down(old(self)@, now@) ==> {
                &&& final(self)@.ball_position == old(self)@.ball_position
                &&& final(self)@.ball_velocity == old(self)@.ball_velocity
                &&& final(self)@.enemy_ai == old(self)@.enemy_ai
                &&& final(self)@.score == old(self)@.score
                &&& final(sounds)@ == old(sounds)@
            },
            player_bottom(final(self)@) >= 0 ==> 0 <= final(self)@.player_position.y
                <= player_bottom(final(self)@),
            final(self)@.score.0 >= old(self)@.score.0,
            final(self)@.score.1 >= old(self)@.score.1,
            final(self)@.score.0 + final(self)@.score.1
                <= old(self)@.score.0 + old(self)@.score.1 + 1,
            final(self)@.score != old(self)@.score ==> {
                &&& final(self)@.time_since_last_score == now@
                &&& counting_down(final(self)@, now@)
            },
            final(self)@.score == old(self)@.score ==> {
                final(self)@.time_since_last_score == old(self)@.time_since_last_score
            },
            !tick_crossing(old(self)@, now@, delta_time@, *input) ==> {
                &&& final(self)@ == tick(
                    old(self)@,
                    now@,
                    delta_time@,
                    *input,
                    old(self)@.ball_velocity,
                )
                &&& final(sounds)@ == old(sounds)@ + tick_sounds(
                    old(self)@,
                    now@,
                    delta_time@,
                    *input,
                    old(self)@.ball_velocity,
                )
            },
    {
        self.countdown(now);
        self.update_player_movement(input, delta_time);
        if self.paused {
            proof {
                let idle = serve_direction(0, false, false);
                assert(is_serve_direction(idle));
                lemma_tick_ignores_unused_serve(
                    old(self)@,
                    now@,
                    delta_time@,
                    *input,
                    idle,
                    old(self)@.ball_velocity,
                );
                assert(sounds@ =~= old(sounds)@ + tick_sounds(
                    old(self)@,
                    now@,
                    delta_time@,
                    *input,
                    idle,
                ));
                assert(tick_outcome(
                    old(self)@,
                    self@,
                    old(sounds)@,
                    sounds@,
                    now@,
                    delta_time@,
                    *input,
                    idle,
                ));
            }
            return ;
        }
        self.advance_ball(delta_time);
        self.tick_opponent();
        let ghost moved = self@;
        proof {
            let exact = tick_moved(old(self)@, now@, delta_time@, *input);
            let idle = serve_direction(0, false, false);
            lemma_holding_is_unseen(
                ball_advanced(tick_begun(old(self)@, now@, delta_time@, *input), delta_time@),
                now@,
                idle,
            );
            assert(moved == ball_held(exact));
            lemma_holding_is_unseen(exact, now@, idle);
        }
        self.check_collision(now, sounds);
        proof {
            let fresh = choose|fresh: Vec2|
                is_serve_direction(fresh) && #[trigger] collision_outcome(
                    moved,
                    self@,
                    old(sounds)@,
                    sounds@,
                    now@,
                    fresh,
                );
            lemma_holding_is_unseen(
                tick_moved(old(self)@, now@, delta_time@, *input),
                now@,
                fresh,
            );
            assert(tick_outcome(
                old(self)@,
                self@,
                old(sounds)@,
                sounds@,
                now@,
                delta_time@,
                *input,
                fresh,
            ));
            lemma_tick_scores_at_most_once(
                old(self)@,
                now@,
                delta_time@,
                *input,
                fresh,
            );
            if !tick_crossing(old(self)@, now@, delta_time@, *input) {
                lemma_tick_ignores_unused_serve(
                    old(self)@,
                    now@,
                    delta_time@,
                    *input,
                    fresh,
                    old(self)@.ball_velocity,
                );
            }
        }
    }

    /// Whether a tick at time `now` for a frame of length `delta_time` is
    /// admitted: the frame is not negative and, unless the countdown runs,
    /// the counter that the ball is about to raise, if any, can still be
    /// raised.
    pub fn admits(&self, now: Fixed, delta_time: Fixed) -> (ok: bool)
        requires
            self.wf(),
        ensures
            ok == tick_admitted(self@, now@, delta_time@),
    {
        if delta_time.raw < 0 {
            return false;
        }
        let elapsed: i128 = (now.raw as i128) - (self.time_since_last_score.raw as i128);
        if elapsed < (COUNTDOWN as i128) {
            return true;
        }
        let x: Fixed = held_advance(
            self.ball_position.x,
            self.ball_velocity.x,
            self.ball_speed,
            self.screen_width,
            self.screen_height,
            delta_time,
        );
        proof {
            lemma_holding_is_unseen(
                ball_advanced(self@, delta_time@),
                now@,
                serve_direction(0, false, false),
            );
        }
        let half_radius: i64 = self.ball_radius.raw / 2;
        let right_edge: i64 = (self.screen_width as i64) * SCALE;
        if x.raw < -half_radius {
            self.score.1 < u32::MAX
        } else if x.raw > right_edge + half_radius {
            self.score.0 < u32::MAX
        } else {
            true
        }
    }

    /// Time left of the countdown at `now`, or `None` once the match runs.
    pub fn countdown_remaining(&self, now: Fixed) -> (left: Option<Fixed>)
        requires
            fits_i64(COUNTDOWN - (now@ - self@.time_since_last_score)),
        ensures
            left.is_some() == countdown_left(self@, now@).is_some(),
            left matches Some(t) ==> countdown_left(self@, now@) == Some(t@),
    {
        let left: i128 = (COUNTDOWN as i128) - ((now.raw as i128)
            - (self.time_since_last_score.raw as i128));
        if left > 0 {
            Some(Fixed { raw: left as i64 })
        } else {
            None
        }
    }

    /// Puts the ball at `position` with velocity `velocity`.
    pub fn set_ball(&mut self, position: Vector2, velocity: Vector2)
        requires
            old(self).wf(),
            ball_in_field(position@, old(self)@.screen_width, old(self)@.screen_height),
            valid_velocity(velocity@),
        ensures
            final(self)@ == (GameView {
                ball_position: position@,
                ball_velocity: velocity@,
                ..old(self)@
            }),
            final(self).wf(),
    {
        self.ball_position = position;
        self.ball_velocity = velocity;
    }

    /// Sets the time of the last point, from which the countdown runs.
    pub fn set_time_since_last_score(&mut self, time: Fixed)
        ensures
            final(self)@ == (GameView { time_since_last_score: time@, ..old(self)@ }),
            final(self).wf() == old(self).wf(),
    {
        self.time_since_last_score = time;
    }

    /// Sets the screen that the program shows.
    pub fn set_game_state(&mut self, state: GameState)
        ensures
            final(self)@ == (GameView { game_state: state, ..old(self)@ }),
            final(self).wf() == old(self).wf(),
    {
        self.game_state = state;
    }

    /// The screen that the program shows.
    pub fn game_state(&self) -> (r: GameState)
        ensures
            r == self@.game_state,
    {
        self.game_state
    }

    /// Centre of the ball.
    pub fn ball_position(&self) -> (r: Vector2)
        ensures
            r@ == self@.ball_position,
    {
        self.ball_position
    }

    /// Velocity of the ball.
    pub fn ball_velocity(&self) -> (r: Vector2)
        ensures
            r@ == self@.ball_velocity,
    {
        self.ball_velocity
    }

    /// Speed of the ball.
    pub fn ball_speed(&self) -> (r: Fixed)
        ensures
            r@ == self@.ball_speed,
    {
        self.ball_speed
    }

    /// Radius of the ball.
    pub fn ball_radius(&self) -> (r: Fixed)
        ensures
            r@ == self@.ball_radius,
    {
        self.ball_radius
    }

    /// The last positions of the ball, newest first.
    pub fn ball_position_history(&self) -> (r: &Vec<Vector2>)
        ensures
            r@.map_values(|v: Vector2| v@) == self@.ball_position_history,
    {
        &self.ball_position_history
    }

    /// Top-left corner of the player's paddle.
    pub fn player_position(&self) -> (r: Vector2)
        ensures
            r@ == self@.player_position,
    {
        self.player_position
    }

    /// Width and height of the player's paddle.
    pub fn player_size(&self) -> (r: Vector2)
        ensures
            r@ == self@.player_size,
    {
        self.player_size
    }

    /// The opponent.
    pub fn enemy_ai(&self) -> (r: &AI)
        ensures
            r@ == self@.enemy_ai,
    {
        &self.enemy_ai
    }

    /// Points of the player and of the opponent.
    pub fn score(&self) -> (r: (u32, u32))
        ensures
            r.0 == self@.score.0,
            r.1 == self@.score.1,
    {
        self.score
    }

    /// Time of the last point.
    pub fn time_since_last_score(&self) -> (r: Fixed)
        ensures
            r@ == self@.time_since_last_score,
    {
        self.time_since_last_score
    }

    /// The pause flag as the last tick set it.
    pub fn paused(&self) -> (r: bool)
        ensures
            r == self@.paused,
    {
        self.paused
    }

    /// Width of the viewport in pixels.
    pub fn screen_width(&self) -> (r: i32)
        ensures
            r == self@.screen_width,
    {
        self.screen_width
    }

    /// Height of the viewport in pixels.
    pub fn screen_height(&self) -> (r: i32)
        ensures
            r == self@.screen_height,
    {
        self.screen_height
    }
}

} // verus!
