use pong50th::ai::AI;
use pong50th::fixed::Fixed;
use pong50th::vectorhelper::Vector2;

fn px(x: i32, y: i32) -> Vector2 {
    Vector2::from_ints(x, y)
}

fn show_ball(ai: &mut AI, y: i32) {
    ai.update_ball(px(400, y), px(0, 0), Fixed::from_int(3000), Fixed::from_int(10));
}

#[test]
fn new_opponent_is_anchored_right_and_centred() {
    let ai = AI::new(Fixed::from_int(800), Fixed::from_int(450));
    assert_eq!(ai.position(), px(780, 175));
    assert_eq!(ai.size(), px(10, 100));
    assert_eq!(ai.speed(), Fixed::from_int(6));
    assert_eq!(ai.ball_position(), px(0, 0));
}

#[test]
fn opponent_follows_the_viewport() {
    let mut ai = AI::new(Fixed::from_int(800), Fixed::from_int(450));
    show_ball(&mut ai, 300);
    ai.update();
    ai.update_screen_size(Fixed::from_int(1280), Fixed::from_int(720));
    assert_eq!(ai.position(), px(1260, 310));
    // what it saw of the ball stays
    assert_eq!(ai.ball_position(), px(400, 300));
}

#[test]
fn opponent_remembers_the_ball() {
    let mut ai = AI::new(Fixed::from_int(800), Fixed::from_int(450));
    ai.update_ball(px(123, 45), px(-1, 2), Fixed::from_int(3000), Fixed::from_int(10));
    assert_eq!(ai.ball_position(), px(123, 45));
    // seeing the ball moves nothing
    assert_eq!(ai.position(), px(780, 175));
}

#[test]
fn opponent_steps_towards_the_ball() {
    let mut ai = AI::new(Fixed::from_int(800), Fixed::from_int(450));
    // centre of the paddle at 225
    show_ball(&mut ai, 300);
    ai.update();
    assert_eq!(ai.position(), px(780, 181));
    ai.update();
    assert_eq!(ai.position(), px(780, 187));
    show_ball(&mut ai, 100);
    ai.update();
    assert_eq!(ai.position(), px(780, 181));
}

#[test]
fn opponent_level_with_the_ball_stays() {
    let mut ai = AI::new(Fixed::from_int(800), Fixed::from_int(450));
    show_ball(&mut ai, 225);
    ai.update();
    assert_eq!(ai.position(), px(780, 175));
}

#[test]
fn opponent_overshoots_by_less_than_a_pace() {
    let mut ai = AI::new(Fixed::from_int(800), Fixed::from_int(450));
    // one pixel below the centre: a whole pace down, then a whole pace back
    show_ball(&mut ai, 226);
    ai.update();
    assert_eq!(ai.position(), px(780, 181));
    ai.update();
    assert_eq!(ai.position(), px(780, 175));
}

#[test]
fn opponent_stops_at_top_and_bottom() {
    let mut ai = AI::new(Fixed::from_int(800), Fixed::from_int(450));
    show_ball(&mut ai, -1000);
    for _ in 0..40 {
        ai.update();
        let y = ai.position().y.raw();
        assert!(0 <= y && y <= 350_000_000);
        assert_eq!(ai.position().x, Fixed::from_int(780));
    }
    assert_eq!(ai.position(), px(780, 0));
    show_ball(&mut ai, 5000);
    for _ in 0..80 {
        ai.update();
        let y = ai.position().y.raw();
        assert!(0 <= y && y <= 350_000_000);
    }
    assert_eq!(ai.position(), px(780, 350));
}

#[test]
fn opponent_in_a_viewport_lower_than_its_paddle() {
    // the range [0, 50 - 100] is empty: below zero goes to zero, all else to -50
    let mut ai = AI::new(Fixed::from_int(800), Fixed::from_int(50));
    assert_eq!(ai.position(), px(780, -25));
    show_ball(&mut ai, 0);
    ai.update();
    assert_eq!(ai.position(), px(780, 0));
    show_ball(&mut ai, 500);
    ai.update();
    assert_eq!(ai.position(), px(780, -50));
}

#[test]
fn opponent_takes_every_viewport_of_at_least_a_pixel() {
    let ai = AI::new(Fixed::from_int(70_000), Fixed::from_int(450));
    assert_eq!(ai.position(), px(69_980, 175));
    let ai = AI::new(Fixed::from_int(-5), Fixed::from_int(0));
    // one pixel wide and high: the anchor lies 19 pixels left of the origin
    assert_eq!(
        ai.position(),
        Vector2::new(Fixed::from_raw(-19_000_000), Fixed::from_raw(-49_500_000))
    );
    let mut ai = AI::new(Fixed::from_int(800), Fixed::from_int(450));
    show_ball(&mut ai, 300);
    ai.update_screen_size(Fixed::from_raw(i64::MAX), Fixed::from_raw(i64::MIN));
    assert_eq!(
        ai.position(),
        Vector2::new(Fixed::from_raw(i64::MAX - 20_000_000), Fixed::from_raw(-49_500_000))
    );
    assert_eq!(ai.size(), px(10, 100));
    assert_eq!(ai.speed(), Fixed::from_int(6));
    assert_eq!(ai.ball_position(), px(400, 300));
    ai.update_screen_size(Fixed::from_raw(800_500_000), Fixed::from_int(600));
    assert_eq!(ai.position(), Vector2::new(Fixed::from_raw(780_500_000), Fixed::from_int(250)));
    // the highest viewport there is: the paddle still follows and stays inside
    ai.update_screen_size(Fixed::from_int(800), Fixed::from_raw(i64::MAX));
    let top = i64::MAX / 2 - 50_000_000;
    assert_eq!(ai.position(), Vector2::new(Fixed::from_int(780), Fixed::from_raw(top)));
    ai.update_ball(
        Vector2::new(Fixed::from_int(400), Fixed::from_raw(i64::MAX)),
        px(0, 0),
        Fixed::from_int(3000),
        Fixed::from_int(10),
    );
    ai.update();
    assert_eq!(ai.position(), Vector2::new(Fixed::from_int(780), Fixed::from_raw(top + 6_000_000)));
}
