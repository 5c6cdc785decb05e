use rand::rngs::SmallRng;
use rand::SeedableRng;
use runaway_train::draw::draw_explosion;
use runaway_train::draw::draw_floor;
use runaway_train::draw::draw_game_ended_screen;
use runaway_train::draw::draw_mountains;
use runaway_train::draw::draw_pillars;
use runaway_train::draw::draw_post_explosion_screen;
use runaway_train::draw::draw_score;
use runaway_train::draw::draw_stops;
use runaway_train::draw::draw_train;
use runaway_train::draw::draw_velocity_bar;
use runaway_train::draw::explosion_from_draws;
use runaway_train::draw::screen_shake;
use runaway_train::draw::shake_offset;
use runaway_train::draw::Color;
use runaway_train::draw::Command;
use runaway_train::draw::DrawCmd;
use runaway_train::draw::Point;
use runaway_train::utils::Fraction;

fn fill_rect(x: i32, y: i32, width: i32, height: i32, color: Color) -> DrawCmd {
    Command::FillRect { x, y, width, height, color }
}

fn draw_rect(x: i32, y: i32, width: i32, height: i32, color: Color) -> DrawCmd {
    Command::DrawRect { x, y, width, height, color }
}

fn line(x1: i32, y1: i32, x2: i32, y2: i32) -> DrawCmd {
    Command::DrawLine { x1, y1, x2, y2, width: 1, color: Color::Black }
}

fn text(text: &str, x: i32, y: i32) -> DrawCmd {
    Command::DrawText { text: text.to_string(), x, y }
}

fn blob(x: i32, y: i32, color: Color) -> DrawCmd {
    Command::FillEllipse { x, y, width: 40, height: 40, color }
}

#[test]
fn train_is_a_body_with_three_windows() {
    assert_eq!(
        draw_train(),
        vec![
            fill_rect(-1, 60, 201, 120, Color::White),
            draw_rect(-1, 60, 201, 120, Color::Black),
            draw_rect(-40, 82, 60, 45, Color::Black),
            draw_rect(40, 82, 60, 45, Color::Black),
            draw_rect(120, 82, 30, 45, Color::Black),
        ]
    );
}

#[test]
fn floor_is_one_line() {
    assert_eq!(draw_floor(), vec![line(0, 210, 400, 210)]);
}

#[test]
fn score_is_written_in_the_corner() {
    assert_eq!(draw_score(0), vec![text("Score: 0", 16, 16)]);
    assert_eq!(draw_score(2500), vec![text("Score: 2500", 16, 16)]);
    assert_eq!(draw_score(usize::MAX), vec![text(&format!("Score: {}", usize::MAX), 16, 16)]);
}

fn board(current: &str, announcement: &str) -> Vec<DrawCmd> {
    vec![
        fill_rect(232, 24, 144, 67, Color::White),
        draw_rect(232, 24, 144, 67, Color::Black),
        line(232, 31, 369, 31),
        line(369, 31, 369, 52),
        line(369, 54, 363, 48),
        line(369, 54, 375, 48),
        text(current, 243, 40),
        text(announcement, 243, 64),
    ]
}

#[test]
fn stops_board_gives_short_distances_in_metres() {
    assert_eq!(draw_stops("P. Nuova", 775, "P. Susa", false), board("P. Nuova", "775m P. Susa"));
    assert_eq!(draw_stops("", 0, "P. Nuova", false), board("", "0m P. Nuova"));
    assert_eq!(draw_stops("A", 999, "B", false), board("A", "999m B"));
    assert_eq!(draw_stops("A", -12, "B", false), board("A", "-12m B"));
    assert_eq!(draw_stops("A", i32::MIN, "B", false), board("A", "-2147483648m B"));
}

#[test]
fn stops_board_cuts_two_digits_off_long_distances() {
    assert_eq!(draw_stops("A", 1000, "B", false), board("A", "10km B"));
    assert_eq!(
        draw_stops("P. Susa", 4688, "P. Garibaldi", false),
        board("P. Susa", "46km P. Garibaldi")
    );
    assert_eq!(draw_stops("A", 12345, "B", false), board("A", "123km B"));
    assert_eq!(draw_stops("A", i32::MAX, "B", false), board("A", "21474836km B"));
}

#[test]
fn stops_board_wonders_beyond_the_last_stop() {
    assert_eq!(
        draw_stops("Salerno", 531_654, "Game Over", true),
        board("Salerno", "Wtf are u going")
    );
    assert_eq!(draw_stops("Salerno", -5, "Game Over", true), board("Salerno", "Wtf are u going"));
}

#[test]
fn mountains_stand_still_at_the_start() {
    assert_eq!(
        draw_mountains(0),
        vec![
            line(0, 116, 89, 27),
            line(89, 27, 178, 116),
            line(178, 116, 267, 27),
            line(267, 27, 356, 116),
            line(356, 116, 445, 27),
            line(445, 27, 534, 116),
            line(534, 116, 623, 27),
            line(623, 27, 712, 116),
        ]
    );
}

#[test]
fn mountains_slide_with_the_travel_and_come_round() {
    let slid = draw_mountains(150_750_000);
    assert_eq!(slid[0], line(-100, 116, -11, 27));
    assert_eq!(slid[1], line(-11, 27, 78, 116));
    assert_eq!(slid[7], line(523, 27, 612, 116));
    assert_eq!(draw_mountains(178 * 1_500_000), draw_mountains(0));
    assert_eq!(draw_mountains(178 * 1_500_000 - 1)[0], line(-177, 116, -88, 27));
    assert_eq!(draw_mountains(1_499_999), draw_mountains(0));
    assert_eq!(draw_mountains(u64::MAX).len(), 8);
}

#[test]
fn pillars_rush_by_five_times_as_fast() {
    let mut expected = Vec::new();
    for x in [-50, 70, 190, 310, 430] {
        expected.push(fill_rect(x, -1, 10, 212, Color::White));
        expected.push(draw_rect(x, -1, 10, 212, Color::Black));
    }
    assert_eq!(draw_pillars(15_000_000), expected);
    assert_eq!(draw_pillars(24 * 1_500_000), draw_pillars(0));
    assert_eq!(draw_pillars(0)[0], fill_rect(0, -1, 10, 212, Color::White));
    assert_eq!(draw_pillars(300_000)[1], draw_rect(-1, -1, 10, 212, Color::Black));
    assert_eq!(draw_pillars(u64::MAX).len(), 10);
}

fn bar_frame() -> Vec<DrawCmd> {
    vec![
        text("Velocity:", 232, 154),
        fill_rect(232, 178, 144, 15, Color::White),
        draw_rect(232, 178, 144, 15, Color::Black),
        draw_rect(235, 181, 138, 9, Color::Black),
    ]
}

fn bar(length: i32) -> Vec<DrawCmd> {
    let mut picture = bar_frame();
    picture.push(fill_rect(235, 181, length, 9, Color::Black));
    picture
}

#[test]
fn velocity_bar_is_as_long_as_the_train_is_fast() {
    assert_eq!(draw_velocity_bar(0, 0, true), bar(0));
    assert_eq!(draw_velocity_bar(750_000, 0, true), bar(69));
    assert_eq!(draw_velocity_bar(1_425_000, 0, true), bar(131));
    assert_eq!(draw_velocity_bar(1_500_000, 45_000_000, true), bar(138));
    assert_eq!(draw_velocity_bar(9_000_000, 45_000_000, true), bar(138));
    assert_eq!(draw_velocity_bar(-3, 0, false), bar(0));
    assert_eq!(draw_velocity_bar(i64::MAX, u64::MAX, false), bar(138));
}

#[test]
fn velocity_bar_blinks_above_ninety_five_percent() {
    assert_eq!(draw_velocity_bar(1_450_000, 0, true), bar_frame());
    assert_eq!(draw_velocity_bar(1_450_000, 29_999_999, true), bar_frame());
    assert_eq!(draw_velocity_bar(1_450_000, 30_000_000, true), bar(133));
    assert_eq!(draw_velocity_bar(1_450_000, 45_000_000, true), bar(133));
    assert_eq!(draw_velocity_bar(1_450_000, 60_000_000, true), bar_frame());
    assert_eq!(draw_velocity_bar(1_450_000, 0, false), bar(133));
    assert_eq!(draw_velocity_bar(1_425_001, 0, true), bar_frame());
    assert_eq!(draw_velocity_bar(2_000_000, 0, true), bar_frame());
}

#[test]
fn post_explosion_screen_unfolds_with_its_timer() {
    assert_eq!(
        draw_post_explosion_screen(Fraction { numerator: 0, denominator: 20 }),
        vec![fill_rect(0, 0, 400, 240, Color::Black), fill_rect(29, 71, 0, 0, Color::White)]
    );
    assert_eq!(
        draw_post_explosion_screen(Fraction { numerator: 10, denominator: 20 }),
        vec![fill_rect(0, 0, 400, 240, Color::Black), fill_rect(29, 71, 171, 49, Color::White)]
    );
    assert_eq!(
        draw_post_explosion_screen(Fraction { numerator: 19, denominator: 20 }),
        vec![fill_rect(0, 0, 400, 240, Color::Black), fill_rect(29, 71, 324, 93, Color::White)]
    );
}

#[test]
fn post_explosion_screen_tells_the_verdict_at_the_end() {
    assert_eq!(
        draw_post_explosion_screen(Fraction { numerator: 20, denominator: 20 }),
        vec![
            fill_rect(0, 0, 400, 240, Color::Black),
            fill_rect(29, 71, 342, 98, Color::White),
            draw_rect(29, 71, 342, 98, Color::Black),
            draw_rect(32, 74, 336, 92, Color::Black),
            text("I told you not accelerate too much", 44, 84),
            text("Oh and by the way, you're fired", 44, 108),
            text("Press B to try again", 44, 141),
        ]
    );
}

#[test]
fn game_ended_screen_unfolds_with_its_timer() {
    assert_eq!(
        draw_game_ended_screen(Fraction { numerator: 7, denominator: 20 }, 8_998_125_000, 2067),
        vec![fill_rect(0, 0, 400, 240, Color::Xor), fill_rect(28, 55, 120, 45, Color::White)]
    );
}

fn closing(whereabouts: &str, rating: &str, score: &str) -> Vec<DrawCmd> {
    vec![
        fill_rect(0, 0, 400, 240, Color::Xor),
        fill_rect(28, 55, 344, 129, Color::White),
        draw_rect(28, 55, 344, 129, Color::Black),
        draw_rect(32, 59, 336, 121, Color::Black),
        text(whereabouts, 44, 69),
        text(rating, 44, 93),
        text(score, 44, 117),
        text("Press B to try again", 44, 155),
    ]
}

#[test]
fn game_ended_screen_tells_where_the_train_stopped() {
    let done = Fraction { numerator: 20, denominator: 20 };
    assert_eq!(
        draw_game_ended_screen(done, 8_998_125_000, 2067),
        closing(
            "You are 6 meters before Ciampino",
            "Minister gives you a promotion",
            "Final score: 2067"
        )
    );
    assert_eq!(
        draw_game_ended_screen(done, 9_001_875_000, 1994),
        closing(
            "You are 6 meters after Ciampino",
            "Minister gives you a promotion",
            "Final score: 1994"
        )
    );
    assert_eq!(
        draw_game_ended_screen(done, 9_000_000_000, 2500),
        closing(
            "You are 0 meters after Ciampino",
            "Minister plays your skin flute",
            "Final score: 2500"
        )
    );
    assert_eq!(
        draw_game_ended_screen(done, 8_999_850_000, 2500),
        closing(
            "You are 0 meters after Ciampino",
            "Minister plays your skin flute",
            "Final score: 2500"
        )
    );
}

#[test]
fn game_ended_screen_gives_long_distances_in_kilometres() {
    let done = Fraction { numerator: 20, denominator: 20 };
    assert_eq!(
        draw_game_ended_screen(done, 193_125_000, 0),
        closing(
            "You are 293 km before Ciampino",
            "Minister fires you and your family",
            "Final score: 0"
        )
    );
    assert_eq!(
        draw_game_ended_screen(done, 9_300_000_000, 0),
        closing("You are 10 km after Ciampino", "Minister is a bit upset", "Final score: 0")
    );
    assert_eq!(
        draw_game_ended_screen(done, 9_299_700_000, 1),
        closing("You are 999 meters after Ciampino", "Minister is a bit upset", "Final score: 1")
    );
    assert_eq!(
        draw_game_ended_screen(done, u64::MAX, -4),
        closing(
            "You are 21474836 km after Ciampino",
            "Minister fires you and your family",
            "Final score: -4"
        )
    );
}

#[test]
fn shake_offset_is_the_amount_less_the_draw_within_twice_the_amount() {
    assert_eq!(shake_offset(4, 0, 7), Point { x: 4, y: -3 });
    assert_eq!(shake_offset(4, 8, 9), Point { x: 4, y: 3 });
    assert_eq!(shake_offset(20, 39, 40), Point { x: -19, y: 20 });
    assert_eq!(shake_offset(1, u32::MAX, 4), Point { x: 0, y: 1 });
    assert_eq!(
        shake_offset(0x3fff_ffff, u32::MAX, 0),
        Point { x: 0x3fff_ffff - 3, y: 0x3fff_ffff }
    );
}

#[test]
fn screen_shake_stays_within_its_amount() {
    let mut rng = SmallRng::seed_from_u64(42);
    for amount in [1usize, 2, 4, 20, 1000, 0x3fff_ffff] {
        let reach = amount as i64;
        let mut seen = Vec::new();
        for _ in 0..200 {
            let offset = screen_shake(amount, &mut rng);
            assert!(-reach < i64::from(offset.x) && i64::from(offset.x) <= reach);
            assert!(-reach < i64::from(offset.y) && i64::from(offset.y) <= reach);
            if !seen.contains(&offset) {
                seen.push(offset);
            }
        }
        assert!(seen.len() > 1);
    }
}

#[test]
fn explosion_places_its_blobs_by_the_draws() {
    let draws: Vec<u32> = (0..20).map(|i| i * 37).collect();
    let picture = explosion_from_draws(3, &draws);
    let mut expected = Vec::new();
    for i in 0..10u32 {
        let x = (2 * i * 37) % 200;
        let y = ((2 * i + 1) * 37) % 120;
        let color = if i >= 5 { Color::White } else { Color::Black };
        expected.push(blob(-20 + x as i32, 30 + y as i32, color));
    }
    assert_eq!(picture, expected);
    assert_eq!(picture[0], blob(-20, 67, Color::Black));
    assert_eq!(picture[3], blob(2, 49, Color::Black));
    assert_eq!(picture[9], blob(46, 133, Color::White));
}

#[test]
fn explosion_flashes_on_every_fourth_tick() {
    let draws = vec![u32::MAX; 20];
    for timer in [-8, -4, 0, 4, 8, 36, 40] {
        let picture = explosion_from_draws(timer, &draws);
        assert_eq!(picture.len(), 11);
        assert_eq!(picture[10], fill_rect(0, 0, 400, 240, Color::Xor));
        assert_eq!(picture[0], blob(75, 45, Color::Black));
    }
    for timer in [-7, -1, 1, 2, 3, 5, 39, i32::MAX, i32::MIN + 1] {
        assert_eq!(explosion_from_draws(timer, &draws).len(), 10);
    }
}

#[test]
fn explosion_scatters_debris_over_the_left_of_the_screen() {
    let mut rng = SmallRng::seed_from_u64(5);
    let mut frames = Vec::new();
    for timer in 1..=40 {
        let picture = draw_explosion(timer, &mut rng);
        assert_eq!(picture.len(), if timer % 4 == 0 { 11 } else { 10 });
        for (i, command) in picture.iter().take(10).enumerate() {
            match command {
                Command::FillEllipse { x, y, width, height, color } => {
                    assert!(-20 <= *x && *x < 180);
                    assert!(30 <= *y && *y < 150);
                    assert_eq!((*width, *height), (40, 40));
                    assert_eq!(*color, if i >= 5 { Color::White } else { Color::Black });
                }
                other => panic!("not a blob: {:?}", other),
            }
        }
        if timer % 4 == 0 {
            assert_eq!(picture[10], fill_rect(0, 0, 400, 240, Color::Xor));
        }
        frames.push(picture);
    }
    assert_ne!(frames[0], frames[1]);
}
