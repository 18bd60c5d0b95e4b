use pong50th::audiosystem::{play_sfx, queue_sfx, SoundHandle, SoundType};
use pong50th::credits::{Credits, CreditsRows};
use pong50th::debug::{draw_circle, draw_debug, draw_line, draw_rectangle, Color, DrawCommand, DrawHandle};
use pong50th::fixed::Fixed;
use pong50th::game::{Game, GameState};
use pong50th::layout::{
    center_line_dashes, centered_picture_x, centered_x, countdown_top, pixel_from_halves,
    round_half_even, score_columns,
};
use pong50th::vectorhelper::Vector2;

fn px(x: i32, y: i32) -> Vector2 {
    Vector2::from_ints(x, y)
}

const RED: Color = Color { r: 255, g: 0, b: 0, a: 255 };
const BLUE: Color = Color { r: 0, g: 0, b: 255, a: 128 };

#[test]
fn effects_queue_in_order() {
    let mut queue: Vec<SoundHandle> = Vec::new();
    play_sfx(&mut queue, SoundType::Bounce, Fixed::from_raw(250_000), Fixed::from_int(2));
    queue_sfx(&mut queue, SoundType::PlayerScored);
    queue_sfx(&mut queue, SoundType::OpponentScored);
    assert_eq!(queue.len(), 3);
    assert_eq!(
        queue[0],
        SoundHandle {
            sound_type: SoundType::Bounce,
            volume: Fixed::from_raw(250_000),
            pitch: Fixed::from_int(2),
        }
    );
    assert_eq!(
        queue[1],
        SoundHandle {
            sound_type: SoundType::PlayerScored,
            volume: Fixed::from_raw(500_000),
            pitch: Fixed::from_int(1),
        }
    );
    assert_eq!(queue[2].sound_type, SoundType::OpponentScored);
}

#[test]
fn shapes_queue_with_their_start_and_duration() {
    let mut list: Vec<DrawHandle> = Vec::new();
    draw_line(&mut list, Fixed::from_int(1), px(0, 0), px(10, 10), RED, Fixed::from_int(2));
    draw_circle(&mut list, Fixed::from_int(2), px(5, 5), Fixed::from_int(3), BLUE, Fixed::from_int(1));
    draw_rectangle(&mut list, Fixed::from_int(3), px(1, 2), px(3, 4), RED, Fixed::from_raw(500_000));
    assert_eq!(list.len(), 3);
    assert_eq!(
        list[0],
        DrawHandle {
            draw_command: DrawCommand::Line(px(0, 0), px(10, 10), RED),
            start_time: Fixed::from_int(1),
            duration: Fixed::from_int(2),
        }
    );
    assert_eq!(list[1].draw_command, DrawCommand::Circle(px(5, 5), Fixed::from_int(3), BLUE));
    assert_eq!(list[1].start_time, Fixed::from_int(2));
    assert_eq!(list[2].draw_command, DrawCommand::Rectangle(px(1, 2), px(3, 4), RED));
    assert_eq!(list[2].duration, Fixed::from_raw(500_000));
}

#[test]
fn shape_is_live_until_its_duration_has_run_out() {
    let handle = DrawHandle {
        draw_command: DrawCommand::Circle(px(0, 0), Fixed::from_int(1), RED),
        start_time: Fixed::from_int(4),
        duration: Fixed::from_int(2),
    };
    assert!(handle.live(Fixed::from_int(0)));
    assert!(handle.live(Fixed::from_raw(5_999_999)));
    assert!(!handle.live(Fixed::from_int(6)));
    assert!(!handle.live(Fixed::from_int(7)));
    let endless = DrawHandle {
        draw_command: DrawCommand::Circle(px(0, 0), Fixed::from_int(1), RED),
        start_time: Fixed::from_raw(i64::MAX),
        duration: Fixed::from_raw(i64::MAX),
    };
    assert!(endless.live(Fixed::from_raw(i64::MAX)));
}

#[test]
fn overlay_pass_drops_what_has_run_out() {
    let mut list: Vec<DrawHandle> = Vec::new();
    // live until 3, 3, 3.5 and 10
    draw_line(&mut list, Fixed::from_int(1), px(0, 0), px(10, 10), RED, Fixed::from_int(2));
    draw_circle(&mut list, Fixed::from_int(2), px(5, 5), Fixed::from_int(3), BLUE, Fixed::from_int(1));
    draw_rectangle(&mut list, Fixed::from_int(3), px(1, 2), px(3, 4), RED, Fixed::from_raw(500_000));
    draw_line(&mut list, Fixed::from_int(0), px(7, 7), px(8, 8), BLUE, Fixed::from_int(10));

    let commands = draw_debug(&mut list, Fixed::from_raw(2_999_999));
    assert_eq!(commands.len(), 4);
    assert_eq!(list.len(), 4);

    let commands = draw_debug(&mut list, Fixed::from_int(3));
    assert_eq!(
        commands,
        vec![
            DrawCommand::Rectangle(px(1, 2), px(3, 4), RED),
            DrawCommand::Line(px(7, 7), px(8, 8), BLUE),
        ]
    );
    assert_eq!(list.len(), 2);
    assert_eq!(list[0].start_time, Fixed::from_int(3));
    assert_eq!(list[1].start_time, Fixed::from_int(0));

    let commands = draw_debug(&mut list, Fixed::from_int(10));
    assert!(commands.is_empty());
    assert!(list.is_empty());
    let commands = draw_debug(&mut list, Fixed::from_int(11));
    assert!(commands.is_empty());
}

#[test]
fn half_pixels_go_towards_zero() {
    assert_eq!(pixel_from_halves(7), 3);
    assert_eq!(pixel_from_halves(-7), -3);
    assert_eq!(pixel_from_halves(8), 4);
    assert_eq!(pixel_from_halves(0), 0);
    assert_eq!(pixel_from_halves(-1), 0);
}

#[test]
fn positions_beyond_the_range_go_to_its_ends() {
    assert_eq!(pixel_from_halves(2 * (i32::MAX as i128)), i32::MAX);
    assert_eq!(pixel_from_halves(2 * (i32::MAX as i128) + 2), i32::MAX);
    assert_eq!(pixel_from_halves(i128::MAX), i32::MAX);
    assert_eq!(pixel_from_halves(2 * (i32::MIN as i128)), i32::MIN);
    assert_eq!(pixel_from_halves(i128::MIN), i32::MIN);
}

#[test]
fn centring_text_in_the_viewport() {
    assert_eq!(centered_x(800, 100), 350);
    assert_eq!(centered_x(801, 100), 350);
    assert_eq!(centered_x(800, 101), 349);
    assert_eq!(centered_x(100, 801), -350);
    assert_eq!(centered_x(i32::MAX, i32::MIN), i32::MAX);
    assert_eq!(countdown_top(450), 175);
    assert_eq!(countdown_top(451), 175);
    assert_eq!(countdown_top(50), -25);
    assert_eq!(countdown_top(i32::MIN), -1_073_741_874);
}

#[test]
fn score_stands_left_and_right_of_the_middle() {
    assert_eq!(score_columns(800), (300, 450));
    assert_eq!(score_columns(801), (300, 450));
    assert_eq!(score_columns(100), (-50, 100));
}

#[test]
fn centre_line_has_a_dash_every_twenty_pixels() {
    let dashes = center_line_dashes(450);
    assert_eq!(dashes.len(), 23);
    for (k, top) in dashes.iter().enumerate() {
        assert_eq!(*top, 20 * k as i32);
    }
    assert_eq!(center_line_dashes(0), Vec::<i32>::new());
    assert_eq!(center_line_dashes(-40), Vec::<i32>::new());
    assert_eq!(center_line_dashes(1), vec![0]);
    assert_eq!(center_line_dashes(20), vec![0]);
    assert_eq!(center_line_dashes(21), vec![0, 20]);
}

#[test]
fn rounding_sends_ties_to_the_even_neighbour() {
    assert_eq!(round_half_even(Fixed::from_raw(2_500_000)), 2);
    assert_eq!(round_half_even(Fixed::from_raw(1_500_000)), 2);
    assert_eq!(round_half_even(Fixed::from_raw(500_000)), 0);
    assert_eq!(round_half_even(Fixed::from_raw(2_999_999)), 3);
    assert_eq!(round_half_even(Fixed::from_raw(2_500_001)), 3);
    assert_eq!(round_half_even(Fixed::from_raw(2_499_999)), 2);
    assert_eq!(round_half_even(Fixed::from_raw(499_999)), 0);
    assert_eq!(round_half_even(Fixed::from_raw(3_000_000)), 3);
    assert_eq!(round_half_even(Fixed::from_raw(0)), 0);
    assert_eq!(round_half_even(Fixed::from_raw(-500_000)), 0);
    assert_eq!(round_half_even(Fixed::from_raw(-1_500_000)), -2);
    assert_eq!(round_half_even(Fixed::from_raw(-400_000)), 0);
    assert_eq!(round_half_even(Fixed::from_raw(-600_000)), -1);
}

#[test]
fn credits_name_the_game() {
    let credits = Credits::new();
    assert_eq!(credits.title, "Pong50th");
    assert_eq!(credits.author, "PerfectlyFineCode");
    assert_eq!(
        credits.acknowledgements,
        vec![String::from("[raylib-rs] Paul Clement (github.com/deltaphc)")]
    );
    assert_eq!(credits.version, "0.1.0");
    assert_eq!(
        credits.description,
        "A pong game celebrating 50th anniversary, made with raylib-rs"
    );
    assert_eq!(credits.website, "github.com/perfectlyfinecode/pong50th");
    assert_eq!(credits.license, "MIT");
}

#[test]
fn credits_hand_over_after_six_seconds() {
    let mut credits = Credits::new();
    let mut game = Game::new(800, 450);
    credits.update(&mut game, Fixed::from_int(3));
    assert_eq!(game.game_state(), GameState::Credits);
    assert_eq!(game.time_since_last_score(), Fixed::from_int(0));
    credits.update(&mut game, Fixed::from_int(6));
    assert_eq!(game.game_state(), GameState::Credits);
    credits.update(&mut game, Fixed::from_raw(6_000_001));
    assert_eq!(game.game_state(), GameState::Playing);
    assert_eq!(game.time_since_last_score(), Fixed::from_raw(6_000_001));
    // the match starts with a full countdown
    assert_eq!(game.countdown_remaining(Fixed::from_raw(6_000_001)), Some(Fixed::from_int(3)));
}

#[test]
fn credits_fade_in_and_out() {
    assert_eq!(Credits::alpha(Fixed::from_int(0)), Fixed::from_int(0));
    assert_eq!(Credits::alpha(Fixed::from_raw(400_000)), Fixed::from_raw(400_000));
    assert_eq!(Credits::alpha(Fixed::from_int(1)), Fixed::from_int(1));
    assert_eq!(Credits::alpha(Fixed::from_raw(2_999_999)), Fixed::from_raw(2_999_999));
    assert_eq!(Credits::alpha(Fixed::from_int(3)), Fixed::from_int(3));
    assert_eq!(Credits::alpha(Fixed::from_int(4)), Fixed::from_int(2));
    assert_eq!(Credits::alpha(Fixed::from_raw(5_600_000)), Fixed::from_raw(400_000));
    assert_eq!(Credits::alpha(Fixed::from_int(6)), Fixed::from_int(0));
    assert_eq!(Credits::alpha(Fixed::from_int(7)), Fixed::from_int(-1));
    assert_eq!(Credits::alpha(Fixed::from_int(-2)), Fixed::from_int(-2));
}

#[test]
fn credits_rows_stack_below_the_logo() {
    let credits = Credits::new();
    assert_eq!(
        credits.rows(450, 64),
        CreditsRows {
            logo: -95,
            title: 19,
            author: 69,
            first_acknowledgement: 119,
            version: 149,
            description: 179,
            website: 209,
            license: 239,
        }
    );
    assert_eq!(credits.acknowledgement_row(450, 64, 0), 119);
    assert_eq!(credits.acknowledgement_row(450, 64, 2), 179);
    assert_eq!(credits.acknowledgement_row(i32::MAX, i32::MAX, usize::MAX), i32::MAX);
}

#[test]
fn acknowledgements_drop_the_half_pixel_at_the_end() {
    // the first row stands at -40.5 pixels: -40, and the next at -10.5: -10
    let credits = Credits::new();
    let rows = credits.rows(131, 64);
    assert_eq!(rows.first_acknowledgement, -40);
    assert_eq!(credits.acknowledgement_row(131, 64, 0), -40);
    assert_eq!(credits.acknowledgement_row(131, 64, 1), -10);
    assert_eq!(credits.acknowledgement_row(131, 64, 2), 19);
    assert_eq!(rows.version, -10);
}

#[test]
fn credits_rows_with_more_acknowledgements() {
    let mut credits = Credits::new();
    credits.acknowledgements.push(String::from("second"));
    credits.acknowledgements.push(String::from("third"));
    let rows = credits.rows(1081, 200);
    // 540.5 - 50 - 90 - 90 - 150 = 160.5
    assert_eq!(rows.logo, 160);
    assert_eq!(rows.title, 410);
    assert_eq!(rows.author, 460);
    assert_eq!(rows.first_acknowledgement, 510);
    assert_eq!(rows.version, 600);
    assert_eq!(rows.description, 630);
    assert_eq!(rows.website, 660);
    assert_eq!(rows.license, 690);
}

#[test]
fn picture_is_centred_by_whole_halves() {
    assert_eq!(centered_picture_x(800, 64), 368);
    // an even viewport and an odd picture: one pixel left of the text's place
    assert_eq!(centered_picture_x(800, 65), 368);
    assert_eq!(centered_x(800, 65), 367);
    assert_eq!(centered_picture_x(801, 65), 368);
    assert_eq!(centered_picture_x(801, 64), 368);
    assert_eq!(centered_picture_x(100, 801), -350);
    assert_eq!(centered_picture_x(i32::MAX, i32::MIN), 2_147_483_647);
    assert_eq!(centered_picture_x(i32::MIN, i32::MAX), -2_147_483_647);
}
