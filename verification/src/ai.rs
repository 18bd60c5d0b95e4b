//! The opponent: a paddle that follows the ball vertically at a fixed pace.

use crate::fixed::{clamp_between, trunc_div, Fixed, SCALE};
use crate::vectorhelper::{Vec2, Vector2};
use vstd::prelude::*;

verus! {

/// Width of either paddle: 10 pixels.
pub const PADDLE_WIDTH: i64 = 10_000_000;

/// Height of either paddle: 100 pixels.
pub const PADDLE_HEIGHT: i64 = 100_000_000;

/// Distance from the right edge of the viewport to the opponent's anchor: 20 pixels.
pub const AI_MARGIN: i64 = 20_000_000;

/// Distance that the opponent's paddle moves per tick: 6 pixels.
pub const AI_SPEED: i64 = 6_000_000;

/// The opponent controller as plain mathematical values.
pub struct AiView {
    pub ball_position: Vec2,
    pub ball_velocity: Vec2,
    pub ball_speed: int,
    pub ball_radius: int,
    pub position: Vec2,
    pub size: Vec2,
    pub speed: int,
    pub screen_width: int,
    pub screen_height: int,
}

/// A viewport extent that the simulation works with: at least one pixel,
/// and no more than 64 bits hold.
pub open spec fn valid_extent(e: int) -> bool {
    SCALE <= e <= 0x7fff_ffff_ffff_ffff
}

/// A reported viewport extent, raised to one pixel where it is less.
pub open spec fn clamp_extent(e: int) -> int {
    if e < SCALE {
        SCALE as int
    } else {
        e
    }
}

/// Top of a paddle that is vertically centred in a viewport of height `h`.
pub open spec fn centered_top(h: int) -> int {
    trunc_div(h, 2) - trunc_div(PADDLE_HEIGHT as int, 2)
}

/// Where the opponent's paddle is anchored in a viewport of the given size.
pub open spec fn ai_anchor(w: int, h: int) -> Vec2 {
    Vec2 { x: w - AI_MARGIN, y: centered_top(h) }
}

/// The controller for a viewport of `w` by `h`, both valid extents, before
/// it has seen the ball.
pub open spec fn ai_initial(w: int, h: int) -> AiView {
    AiView {
        ball_position: Vec2 { x: 0, y: 0 },
        ball_velocity: Vec2 { x: 0, y: 0 },
        ball_speed: 0,
        ball_radius: 0,
        position: ai_anchor(w, h),
        size: Vec2 { x: PADDLE_WIDTH as int, y: PADDLE_HEIGHT as int },
        speed: AI_SPEED as int,
        screen_width: w,
        screen_height: h,
    }
}

/// The controller after the viewport changed to `w` by `h`, both valid
/// extents.
pub open spec fn ai_resized(a: AiView, w: int, h: int) -> AiView {
    AiView { position: ai_anchor(w, h), screen_width: w, screen_height: h, ..a }
}

/// The controller after it was shown the ball.
pub open spec fn ai_observed(a: AiView, position: Vec2, velocity: Vec2, speed: int, radius: int) -> AiView {
    AiView {
        ball_position: position,
        ball_velocity: velocity,
        ball_speed: speed,
        ball_radius: radius,
        ..a
    }
}

/// Vertical position after one tracking step, before it is clamped: one pace
/// towards the ball as seen from the paddle's centre, none if level with it.
pub open spec fn ai_tracked_y(a: AiView) -> int {
    let center = a.position.y + trunc_div(a.size.y, 2);
    if center < a.ball_position.y {
        a.position.y + a.speed
    } else if center > a.ball_position.y {
        a.position.y - a.speed
    } else {
        a.position.y
    }
}

/// The controller with its paddle moved back inside the viewport.
pub open spec fn ai_clamped(a: AiView) -> AiView {
    AiView {
        position: Vec2 {
            x: a.screen_width - AI_MARGIN,
            y: clamp_between(a.position.y, 0, a.screen_height - a.size.y),
        },
        ..a
    }
}

/// The controller after one tick.
pub open spec fn ai_tick(a: AiView) -> AiView {
    ai_clamped(AiView { position: Vec2 { x: a.position.x, y: ai_tracked_y(a) }, ..a })
}

/// What holds of every controller between two calls.
pub open spec fn ai_wf(a: AiView) -> bool {
    &&& valid_extent(a.screen_width)
    &&& valid_extent(a.screen_height)
    &&& a.size == (Vec2 { x: PADDLE_WIDTH as int, y: PADDLE_HEIGHT as int })
    &&& a.speed == AI_SPEED
    &&& a.position.x == a.screen_width - AI_MARGIN
    &&& -PADDLE_HEIGHT <= a.position.y
    &&& a.position.y <= 0 || a.position.y <= a.screen_height - PADDLE_HEIGHT
    &&& a.screen_height >= PADDLE_HEIGHT ==> 0 <= a.position.y <= a.screen_height - PADDLE_HEIGHT
}

/// Validity is an invariant of the controller: whatever ball it is shown, a
/// tick leaves the paddle on its column at the right edge and, where the
/// viewport is at least as high as the paddle, inside the viewport; and the
/// paddle moves by at most one pace.
pub proof fn lemma_ai_tick_keeps_valid(a: AiView)
    requires
        ai_wf(a),
    ensures
        ai_wf(ai_tick(a)),
        ai_tick(a).position.x == a.screen_width - AI_MARGIN,
        a.screen_height >= PADDLE_HEIGHT ==> 0 <= ai_tick(a).position.y <= a.screen_height
            - PADDLE_HEIGHT,
        a.screen_height >= PADDLE_HEIGHT ==> a.position.y - AI_SPEED <= ai_tick(a).position.y
            <= a.position.y + AI_SPEED,
        ai_tick(a) == (AiView { position: ai_tick(a).position, ..a }),
{
}

/// Being shown the ball moves nothing: only what the controller remembers
/// of the ball changes.
pub proof fn lemma_ai_observed_keeps_paddle(
    a: AiView,
    position: Vec2,
    velocity: Vec2,
    speed: int,
    radius: int,
)
    ensures
        ai_observed(a, position, velocity, speed, radius).position == a.position,
        ai_wf(a) ==> ai_wf(ai_observed(a, position, velocity, speed, radius)),
{
}

/// The opponent controller.
#[derive(Clone, Copy, Debug)]
pub struct AI {
    ball_position: Vector2,
    ball_velocity: Vector2,
    ball_speed: Fixed,
    ball_radius: Fixed,
    position: Vector2,
    size: Vector2,
    speed: Fixed,
    screen_width: Fixed,
    screen_height: Fixed,
}

impl View for AI {
    type V = AiView;

    closed spec fn view(&self) -> AiView {
        AiView {
            ball_position: self.ball_position@,
            ball_velocity: self.ball_velocity@,
            ball_speed: self.ball_speed@,
            ball_radius: self.ball_radius@,
            position: self.position@,
            size: self.size@,
            speed: self.speed@,
            screen_width: self.screen_width@,
            screen_height: self.screen_height@,
        }
    }
}

impl AI {
    /// The invariant of the type.
    pub open spec fn wf(&self) -> bool {
        ai_wf(self@)
    }

    /// A controller for a viewport of the given size, each extent raised to
    /// one pixel where it is less, its paddle anchored at the right edge and
    /// vertically centred, with no ball seen yet.
    pub fn new(screen_width: Fixed, screen_height: Fixed) -> (ai: AI)
        ensures
            ai@ == ai_initial(clamp_extent(screen_width@), clamp_extent(screen_height@)),
            ai.wf(),
    {
        let screen_width: Fixed = screen_width.max(Fixed { raw: SCALE });
        let screen_height: Fixed = screen_height.max(Fixed { raw: SCALE });
        AI {
            ball_position: Vector2 { x: Fixed { raw: 0 }, y: Fixed { raw: 0 } },
            ball_velocity: Vector2 { x: Fixed { raw: 0 }, y: Fixed { raw: 0 } },
            ball_speed: Fixed { raw: 0 },
            ball_radius: Fixed { raw: 0 },
            position: Vector2 {
                x: Fixed { raw: screen_width.raw - AI_MARGIN },
                y: Fixed { raw: screen_height.raw / 2 - PADDLE_HEIGHT / 2 },
            },
            size: Vector2 { x: Fixed { raw: PADDLE_WIDTH }, y: Fixed { raw: PADDLE_HEIGHT } },
            speed: Fixed { raw: AI_SPEED },
            screen_width,
            screen_height,
        }
    }

    /// Takes a new viewport size, each extent raised to one pixel where it
    /// is less, and anchors the paddle anew: at the right edge, vertically
    /// centred. What the controller remembers of the ball stays.
    pub fn update_screen_size(&mut self, screen_width: Fixed, screen_height: Fixed)
        requires
            old(self).wf(),
        ensures
            final(self)@ == ai_resized(
                old(self)@,
                clamp_extent(screen_width@),
                clamp_extent(screen_height@),
            ),
            final(self).wf(),
    {
        let screen_width: Fixed = screen_width.max(Fixed { raw: SCALE });
        let screen_height: Fixed = screen_height.max(Fixed { raw: SCALE });
        self.screen_width = screen_width;
        self.screen_height = screen_height;
        self.position = Vector2 {
            x: Fixed { raw: screen_width.raw - AI_MARGIN },
            y: Fixed { raw: screen_height.raw / 2 - PADDLE_HEIGHT / 2 },
        };
    }

    /// Stores the latest snapshot of the ball for the next tracking step.
    pub fn update_ball(
        &mut self,
        ball_position: Vector2,
        ball_velocity: Vector2,
        ball_speed: Fixed,
        ball_radius: Fixed,
    )
        ensures
            final(self)@ == ai_observed(
                old(self)@,
                ball_position@,
                ball_velocity@,
                ball_speed@,
                ball_radius@,
            ),
            old(self).wf() ==> final(self).wf(),
    {
        self.ball_position = ball_position;
        self.ball_velocity = ball_velocity;
        self.ball_speed = ball_speed;
        self.ball_radius = ball_radius;
    }

    /// One tracking step: the paddle moves one pace towards the ball as last
    /// seen, then back inside the viewport.
    pub fn update(&mut self)
        requires
            old(self).wf(),
        ensures
            final(self)@ == ai_tick(old(self)@),
            final(self).wf(),
            final(self)@.position.x == final(self)@.screen_width - AI_MARGIN,
            final(self)@.screen_height >= PADDLE_HEIGHT ==> 0 <= final(self)@.position.y
                <= final(self)@.screen_height - PADDLE_HEIGHT,
    {
        let center: i64 = self.position.y.raw + self.size.y.raw / 2;
        if center < self.ball_position.y.raw {
            self.position = Vector2 {
                x: self.position.x,
                y: Fixed { raw: self.position.y.raw + self.speed.raw },
            };
        } else if center > self.ball_position.y.raw {
            self.position = Vector2 {
                x: self.position.x,
                y: Fixed { raw: self.position.y.raw - self.speed.raw },
            };
        }
        self.clamp_to_screen();
    }

    /// Moves the paddle back inside the viewport and onto its anchor column.
    fn clamp_to_screen(&mut self)
        requires
            valid_extent(old(self)@.screen_width),
            valid_extent(old(self)@.screen_height),
            old(self)@.size.y == PADDLE_HEIGHT,
        ensures
            final(self)@ == ai_clamped(old(self)@),
    {
        let high: Fixed = Fixed { raw: self.screen_height.raw - self.size.y.raw };
        self.position = Vector2 {
            x: Fixed { raw: self.screen_width.raw - AI_MARGIN },
            y: self.position.y.clamp(Fixed { raw: 0 }, high),
        };
    }

    /// Top-left corner of the paddle.
    pub fn position(&self) -> (r: Vector2)
        ensures
            r@ == self@.position,
    {
        self.position
    }

    /// Width and height of the paddle.
    pub fn size(&self) -> (r: Vector2)
        ensures
            r@ == self@.size,
    {
        self.size
    }

    /// Distance that the paddle moves per tick.
    pub fn speed(&self) -> (r: Fixed)
        ensures
            r@ == self@.speed,
    {
        self.speed
    }

    /// Position of the ball as last seen.
    pub fn ball_position(&self) -> (r: Vector2)
        ensures
            r@ == self@.ball_position,
    {
        self.ball_position
    }
}

} // verus!
