//! Pictures. Nothing here touches a screen: each function returns the list of
//! drawing commands that make its picture, in the order in which they are to
//! be carried out, and the host carries them out.

use vstd::prelude::*;
use vstd::string::StringExecFns;
use rand::rngs::SmallRng;
use crate::rng::next_draw;
use crate::score::distance_error;
use crate::score::distance_error_spec;
use crate::score::prime_minister_rating;
use crate::score::rating_spec;
use crate::score::stops_short;
use crate::score::stops_short_spec;
use crate::text::decimal;
use crate::text::lemma_drop_two_digits;
use crate::text::push_decimal;
use crate::text::push_digits;
use crate::units::cycle;
use crate::units::cycle_position;
use crate::units::UNIT;
use crate::utils::Fraction;

verus! {

/// How a shape meets what is on the screen already.
#[derive(Clone, Copy, Debug, PartialEq, Eq)]
pub enum Color {
    Black,
    White,
    /// Inverts what lies beneath.
    Xor,
}

/// One drawing command. `T` is the type of a text: `String` in a command that
/// is handed to the host, a sequence of characters in a contract.
#[derive(Debug, PartialEq, Eq)]
pub enum Command<T> {
    FillRect { x: i32, y: i32, width: i32, height: i32, color: Color },
    DrawRect { x: i32, y: i32, width: i32, height: i32, color: Color },
    DrawLine { x1: i32, y1: i32, x2: i32, y2: i32, width: i32, color: Color },
    /// A filled ellipse inside the given box.
    FillEllipse { x: i32, y: i32, width: i32, height: i32, color: Color },
    /// The outline of an ellipse inside the given box.
    DrawEllipse { x: i32, y: i32, width: i32, height: i32, line_width: i32, color: Color },
    DrawText { text: T, x: i32, y: i32 },
}

/// A drawing command as the functions of this module hand it out.
pub type DrawCmd = Command<String>;

/// A drawing command as the contracts speak of it.
pub type Shape = Command<Seq<char>>;

impl DeepView for Command<String> {
    type V = Command<Seq<char>>;

    open spec fn deep_view(&self) -> Command<Seq<char>> {
        match *self {
            Command::FillRect { x, y, width, height, color } => Command::FillRect {
                x,
                y,
                width,
                height,
                color,
            },
            Command::DrawRect { x, y, width, height, color } => Command::DrawRect {
                x,
                y,
                width,
                height,
                color,
            },
            Command::DrawLine { x1, y1, x2, y2, width, color } => Command::DrawLine {
                x1,
                y1,
                x2,
                y2,
                width,
                color,
            },
            Command::FillEllipse { x, y, width, height, color } => Command::FillEllipse {
                x,
                y,
                width,
                height,
                color,
            },
            Command::DrawEllipse { x, y, width, height, line_width, color } => {
                Command::DrawEllipse { x, y, width, height, line_width, color }
            },
            Command::DrawText { text, x, y } => Command::DrawText { text: text@, x, y },
        }
    }
}

/// A place on the screen, or a move across it, in pixels.
#[derive(Clone, Copy, Debug, PartialEq, Eq)]
pub struct Point {
    pub x: i32,
    pub y: i32,
}

/// The width of the screen, in pixels.
pub const SCREEN_WIDTH: i32 = 400;

/// The height of the screen, in pixels.
pub const SCREEN_HEIGHT: i32 = 240;

/// The largest shake that `screen_shake` takes: twice the amount must fit in
/// an `i32`.
pub const MAX_SHAKE: usize = 0x3fff_ffff;

/// Where a shake of the given amount puts the screen along one axis, for one
/// draw of the random source: `amount - draw % (2 * amount)`.
pub open spec fn shake_spec(amount: int, draw: int) -> int {
    amount - draw % (2 * amount)
}

/// Turns two draws of the random source into the offset of a shake of the
/// given amount, one draw for each axis. Each coordinate lies above `-amount`
/// and at `amount` at most.
pub fn shake_offset(amount: usize, draw_x: u32, draw_y: u32) -> (offset: Point)
    requires
        0 < amount <= MAX_SHAKE,
    ensures
        offset.x == shake_spec(amount as int, draw_x as int),
        offset.y == shake_spec(amount as int, draw_y as int),
        -amount < offset.x <= amount,
        -amount < offset.y <= amount,
{
    let span: u32 = (amount * 2) as u32;
    let x: u32 = draw_x % span;
    let y: u32 = draw_y % span;
    Point { x: amount as i32 - x as i32, y: amount as i32 - y as i32 }
}

/// Picks the offset by which the screen is to be moved for a shake of the
/// given amount: two draws from the random source, first for x and then for y.
/// Whatever is drawn, each coordinate lies above `-amount` and at `amount` at
/// most.
#[inline(always)]
pub fn screen_shake(amount: usize, rng: &mut SmallRng) -> (offset: Point)
    requires
        0 < amount <= MAX_SHAKE,
    ensures
        -amount < offset.x <= amount,
        -amount < offset.y <= amount,
{
    let draw_x: u32 = next_draw(rng);
    let draw_y: u32 = next_draw(rng);
    shake_offset(amount, draw_x, draw_y)
}

/// How many blobs of debris an explosion throws up in one frame.
pub const DEBRIS_BLOBS: usize = 10;

/// The blob of debris with the given number, placed by two draws of the random
/// source: a disc 40 pixels across within the left half of the screen, black
/// for the first five blobs and white for the rest.
pub open spec fn blob(number: int, draw_x: u32, draw_y: u32) -> Shape {
    Command::FillEllipse {
        x: (-20 + draw_x % 200) as i32,
        y: (30 + draw_y % 120) as i32,
        width: 40,
        height: 40,
        color: if number >= 5 {
            Color::White
        } else {
            Color::Black
        },
    }
}

/// The flash that inverts the whole screen.
pub open spec fn flash() -> Shape {
    fill_rect(0, 0, SCREEN_WIDTH as int, SCREEN_HEIGHT as int, Color::Xor)
}

/// The blobs of one frame of an explosion: blob `i` is placed by the draws
/// `2 * i` and `2 * i + 1`.
pub open spec fn blobs(draws: Seq<u32>) -> Seq<Shape> {
    Seq::new(DEBRIS_BLOBS as nat, |i: int| blob(i, draws[2 * i], draws[2 * i + 1]))
}

/// One frame of an explosion: the blobs, and on every fourth tick of the
/// explosion's timer a flash over them.
pub open spec fn explosion_picture(timer: int, draws: Seq<u32>) -> Seq<Shape> {
    if timer % 4 == 0 {
        blobs(draws).push(flash())
    } else {
        blobs(draws)
    }
}

/// Whether a picture is a frame of an explosion at the given tick, for some
/// twenty draws of the random source.
pub open spec fn is_explosion_picture(timer: int, picture: Seq<Shape>) -> bool {
    exists|draws: Seq<u32>|
        draws.len() == 2 * DEBRIS_BLOBS && picture == #[trigger] explosion_picture(timer, draws)
}

/// Builds one frame of an explosion from twenty draws of the random source.
pub fn explosion_from_draws(timer: i32, draws: &Vec<u32>) -> (picture: Vec<DrawCmd>)
    requires
        draws@.len() == 2 * DEBRIS_BLOBS,
    ensures
        picture.deep_view() == explosion_picture(timer as int, draws@),
{
    let mut picture: Vec<DrawCmd> = Vec::new();
    let mut i: usize = 0;
    while i < DEBRIS_BLOBS
        invariant
            i <= DEBRIS_BLOBS,
            draws@.len() == 2 * DEBRIS_BLOBS,
            picture@.len() == i,
            forall|k: int|
                0 <= k < i ==> (#[trigger] picture@[k]).deep_view() == blob(
                    k,
                    draws@[2 * k],
                    draws@[2 * k + 1],
                ),
        decreases DEBRIS_BLOBS - i,
    {
        let x: u32 = draws[2 * i] % 200;
        let y: u32 = draws[2 * i + 1] % 120;
        picture.push(
            Command::FillEllipse {
                x: -20 + x as i32,
                y: 30 + y as i32,
                width: 40,
                height: 40,
                color: if i >= 5 {
                    Color::White
                } else {
                    Color::Black
                },
            },
        );
        i += 1;
    }
    assert(picture.deep_view() =~= blobs(draws@));
    if timer % 4 == 0 {
        picture.push(
            Command::FillRect {
                x: 0,
                y: 0,
                width: SCREEN_WIDTH,
                height: SCREEN_HEIGHT,
                color: Color::Xor,
            },
        );
        assert(picture.deep_view() =~= blobs(draws@).push(flash()));
    }
    picture
}

/// Builds one frame of an explosion: ten blobs of debris, each placed by two
/// draws from the random source, first for x and then for y, and a flash on
/// every fourth tick of the timer.
pub fn draw_explosion(timer: i32, rng: &mut SmallRng) -> (picture: Vec<DrawCmd>)
    ensures
        is_explosion_picture(timer as int, picture.deep_view()),
{
    let mut draws: Vec<u32> = Vec::new();
    let mut i: usize = 0;
    while i < 2 * DEBRIS_BLOBS
        invariant
            i <= 2 * DEBRIS_BLOBS,
            draws@.len() == i,
        decreases 2 * DEBRIS_BLOBS - i,
    {
        let draw: u32 = next_draw(rng);
        draws.push(draw);
        i += 1;
    }
    explosion_from_draws(timer, &draws)
}

/// A filled rectangle, as a shape.
pub open spec fn fill_rect(x: int, y: int, width: int, height: int, color: Color) -> Shape {
    Command::FillRect {
        x: x as i32,
        y: y as i32,
        width: width as i32,
        height: height as i32,
        color,
    }
}

/// The outline of a rectangle, as a shape.
pub open spec fn draw_rect(x: int, y: int, width: int, height: int, color: Color) -> Shape {
    Command::DrawRect {
        x: x as i32,
        y: y as i32,
        width: width as i32,
        height: height as i32,
        color,
    }
}

/// A black line one pixel wide, as a shape.
pub open spec fn draw_line(x1: int, y1: int, x2: int, y2: int) -> Shape {
    Command::DrawLine {
        x1: x1 as i32,
        y1: y1 as i32,
        x2: x2 as i32,
        y2: y2 as i32,
        width: 1,
        color: Color::Black,
    }
}

/// A text, as a shape.
pub open spec fn draw_text(text: Seq<char>, x: int, y: int) -> Shape {
    Command::DrawText { text, x: x as i32, y: y as i32 }
}

/// The train: its body, and the three windows along it.
pub open spec fn train_picture() -> Seq<Shape> {
    seq![
        fill_rect(-1, 60, 201, 120, Color::White),
        draw_rect(-1, 60, 201, 120, Color::Black),
        draw_rect(-40, 82, 60, 45, Color::Black),
        draw_rect(40, 82, 60, 45, Color::Black),
        draw_rect(120, 82, 30, 45, Color::Black),
    ]
}

/// Draws the train.
pub fn draw_train() -> (picture: Vec<DrawCmd>)
    ensures
        picture.deep_view() == train_picture(),
{
    let mut picture: Vec<DrawCmd> = Vec::new();
    // Body
    picture.push(Command::FillRect { x: -1, y: 60, width: 201, height: 120, color: Color::White });
    picture.push(Command::DrawRect { x: -1, y: 60, width: 201, height: 120, color: Color::Black });
    // Leftmost window
    picture.push(Command::DrawRect { x: -40, y: 82, width: 60, height: 45, color: Color::Black });
    // Central window
    picture.push(Command::DrawRect { x: 40, y: 82, width: 60, height: 45, color: Color::Black });
    // Rightmost window
    picture.push(Command::DrawRect { x: 120, y: 82, width: 30, height: 45, color: Color::Black });
    assert(picture.deep_view() =~= train_picture());
    picture
}

/// The floor: one line across the screen, under the wheels.
pub open spec fn floor_picture() -> Seq<Shape> {
    seq![draw_line(0, 210, 400, 210)]
}

/// Draws the floor.
pub fn draw_floor() -> (picture: Vec<DrawCmd>)
    ensures
        picture.deep_view() == floor_picture(),
{
    let mut picture: Vec<DrawCmd> = Vec::new();
    picture.push(
        Command::DrawLine { x1: 0, y1: 210, x2: 400, y2: 210, width: 1, color: Color::Black },
    );
    assert(picture.deep_view() =~= floor_picture());
    picture
}

/// The score in the corner of the screen.
pub open spec fn score_picture(score: int) -> Seq<Shape> {
    seq![draw_text("Score: "@ + decimal(score), 16, 16)]
}

/// Draws the score.
pub fn draw_score(score: usize) -> (picture: Vec<DrawCmd>)
    ensures
        picture.deep_view() == score_picture(score as int),
{
    let mut text = String::from_str("Score: ");
    push_digits(&mut text, score as u64);
    let mut picture: Vec<DrawCmd> = Vec::new();
    picture.push(Command::DrawText { text, x: 16, y: 16 });
    assert(picture.deep_view() =~= score_picture(score as int));
    picture
}

/// A length in metres as the displays show it. From a thousand metres on, the
/// number is written without its last two digits and followed by `long_unit`.
/// Below, it is written in full and followed by `short_unit`.
pub open spec fn length_text(length: int, long_unit: Seq<char>, short_unit: Seq<char>) -> Seq<
    char,
> {
    if length >= 1000 {
        decimal(length).subrange(0, decimal(length).len() - 2) + long_unit
    } else {
        decimal(length) + short_unit
    }
}

/// Appends a length in metres to a text, as the displays show it.
fn push_length(text: &mut String, length: i32, long_unit: &str, short_unit: &str)
    ensures
        final(text)@ == old(text)@ + length_text(length as int, long_unit@, short_unit@),
{
    if length >= 1000 {
        proof {
            lemma_drop_two_digits(length as nat);
        }
        push_decimal(text, (length / 100) as i64);
        text.append(long_unit);
    } else {
        push_decimal(text, length as i64);
        text.append(short_unit);
    }
    assert(text@ =~= old(text)@ + length_text(length as int, long_unit@, short_unit@));
}

/// The line that announces the next stop: the distance to it and its name, or
/// a word of wonder once the train has left the last stop behind.
pub open spec fn announcement(distance: int, next_stop_name: Seq<char>, out_of_bounds: bool) -> Seq<
    char,
> {
    if out_of_bounds {
        "Wtf are u going"@
    } else {
        length_text(distance, "km"@, "m"@) + " "@ + next_stop_name
    }
}

/// The board of stops: a box with an arrow along its upper and right edge, the
/// stop that was passed last, and the announcement of the next.
pub open spec fn stops_picture(
    current_stop_name: Seq<char>,
    distance: int,
    next_stop_name: Seq<char>,
    out_of_bounds: bool,
) -> Seq<Shape> {
    seq![
        fill_rect(232, 24, 144, 67, Color::White),
        draw_rect(232, 24, 144, 67, Color::Black),
        draw_line(232, 31, 369, 31),
        draw_line(369, 31, 369, 52),
        draw_line(369, 54, 363, 48),
        draw_line(369, 54, 375, 48),
        draw_text(current_stop_name, 243, 40),
        draw_text(announcement(distance, next_stop_name, out_of_bounds), 243, 64),
    ]
}

/// An executable black line one pixel wide.
fn line(x1: i32, y1: i32, x2: i32, y2: i32) -> (command: DrawCmd)
    ensures
        command.deep_view() == draw_line(x1 as int, y1 as int, x2 as int, y2 as int),
{
    Command::DrawLine { x1, y1, x2, y2, width: 1, color: Color::Black }
}

/// An executable text.
fn label(text: &str, x: i32, y: i32) -> (command: DrawCmd)
    ensures
        command.deep_view() == draw_text(text@, x as int, y as int),
{
    Command::DrawText { text: String::from_str(text), x, y }
}

/// Draws the board of stops.
pub fn draw_stops(
    current_stop_name: &str,
    distance: i32,
    next_stop_name: &str,
    out_of_bounds: bool,
) -> (picture: Vec<DrawCmd>)
    ensures
        picture.deep_view() == stops_picture(
            current_stop_name@,
            distance as int,
            next_stop_name@,
            out_of_bounds,
        ),
{
    let mut picture: Vec<DrawCmd> = Vec::new();
    picture.push(Command::FillRect { x: 232, y: 24, width: 144, height: 67, color: Color::White });
    picture.push(Command::DrawRect { x: 232, y: 24, width: 144, height: 67, color: Color::Black });
    // Arrow arm
    picture.push(line(232, 31, 369, 31));
    picture.push(line(369, 31, 369, 52));
    // Arrow pointing down
    picture.push(line(369, 54, 363, 48));
    picture.push(line(369, 54, 375, 48));
    // Text
    picture.push(label(current_stop_name, 243, 40));
    if out_of_bounds {
        picture.push(label("Wtf are u going", 243, 64));
    } else {
        let mut text = String::new();
        push_length(&mut text, distance, "km", "m");
        text.append(" ");
        text.append(next_stop_name);
        assert(text@ =~= announcement(distance as int, next_stop_name@, out_of_bounds));
        picture.push(Command::DrawText { text, x: 243, y: 64 });
    }
    assert(picture.deep_view() =~= stops_picture(
        current_stop_name@,
        distance as int,
        next_stop_name@,
        out_of_bounds,
    ));
    picture
}

/// How far the mountains have slid to the left: the travel within a cycle of
/// two mountains, in whole pixels.
pub open spec fn mountain_shift(delta: int) -> int {
    cycle_position(delta, 178)
}

/// The slope with the given number, counted from the left. The slopes make a
/// zigzag 89 pixels to the slope, up from the foot at 116 to the peak at 27
/// and down again.
pub open spec fn slope(number: int, shift: int) -> Shape {
    if number % 2 == 0 {
        draw_line(89 * number - shift, 116, 89 * (number + 1) - shift, 27)
    } else {
        draw_line(89 * number - shift, 27, 89 * (number + 1) - shift, 116)
    }
}

/// The mountains in the background: four of them, eight slopes, sliding to the
/// left as the train travels.
pub open spec fn mountains_picture(delta: int) -> Seq<Shape> {
    Seq::new(8, |k: int| slope(k, mountain_shift(delta)))
}

/// Draws the mountains.
pub fn draw_mountains(delta: u64) -> (picture: Vec<DrawCmd>)
    ensures
        picture.deep_view() == mountains_picture(delta as int),
{
    let shift: i32 = cycle(delta as u128, 178);
    let mut picture: Vec<DrawCmd> = Vec::new();
    let mut i: i32 = 0;
    while i < 8
        invariant
            0 <= i <= 8,
            i % 2 == 0,
            0 <= shift < 178,
            picture@.len() == i,
            forall|k: int|
                0 <= k < i ==> (#[trigger] picture@[k]).deep_view() == slope(k, shift as int),
        decreases 8 - i,
    {
        // Bottom left to top middle
        picture.push(line(89 * i - shift, 116, 89 * (i + 1) - shift, 27));
        // Top middle to bottom right
        picture.push(line(89 * (i + 1) - shift, 27, 89 * (i + 2) - shift, 116));
        i += 2;
    }
    assert(picture.deep_view() =~= mountains_picture(delta as int));
    picture
}

/// How far the pillars have slid to the left: five times the travel, within
/// the gap of 120 pixels from pillar to pillar.
pub open spec fn pillar_shift(delta: int) -> int {
    cycle_position(delta * 5, 120)
}

/// One half of a pillar: its white filling for an even number, its black
/// outline for an odd one. Pillar `number / 2` stands 120 pixels from the one
/// before it.
pub open spec fn pillar_part(number: int, shift: int) -> Shape {
    if number % 2 == 0 {
        fill_rect(120 * (number / 2) - shift, -1, 10, 212, Color::White)
    } else {
        draw_rect(120 * (number / 2) - shift, -1, 10, 212, Color::Black)
    }
}

/// The pillars that rush by in the foreground.
pub open spec fn pillars_picture(delta: int) -> Seq<Shape> {
    Seq::new(10, |k: int| pillar_part(k, pillar_shift(delta)))
}

/// Draws the pillars.
pub fn draw_pillars(delta: u64) -> (picture: Vec<DrawCmd>)
    ensures
        picture.deep_view() == pillars_picture(delta as int),
{
    let shift: i32 = cycle(delta as u128 * 5, 120);
    let mut picture: Vec<DrawCmd> = Vec::new();
    let mut i: i32 = 0;
    while i < 5
        invariant
            0 <= i <= 5,
            0 <= shift < 120,
            picture@.len() == 2 * i,
            forall|k: int|
                0 <= k < 2 * i ==> (#[trigger] picture@[k]).deep_view() == pillar_part(
                    k,
                    shift as int,
                ),
        decreases 5 - i,
    {
        let x: i32 = 120 * i - shift;
        picture.push(Command::FillRect { x, y: -1, width: 10, height: 212, color: Color::White });
        picture.push(Command::DrawRect { x, y: -1, width: 10, height: 212, color: Color::Black });
        i += 1;
    }
    assert(picture.deep_view() =~= pillars_picture(delta as int));
    picture
}

/// The length of the full velocity bar, in pixels.
pub const BAR_LENGTH: i64 = 138;

/// The speed that the bar shows: the speed itself, but no less than nothing
/// and no more than 1.0.
pub open spec fn bar_level(value: int) -> int {
    if value < 0 {
        0
    } else if value > UNIT {
        UNIT as int
    } else {
        value
    }
}

/// Whether the bar is dark in this frame: it blinks when asked to, above
/// 0.95, through the first half of every cycle of 40 of travel.
pub open spec fn bar_is_dark(value: int, delta: int, should_blink: bool) -> bool {
    should_blink && bar_level(value) > 1_425_000 && delta % (40 * UNIT) < 20 * UNIT
}

/// The velocity bar: its caption, its frame, and the bar itself, as long as
/// the speed is high, unless it is dark.
pub open spec fn velocity_bar_picture(value: int, delta: int, should_blink: bool) -> Seq<Shape> {
    let frame = seq![
        draw_text("Velocity:"@, 232, 154),
        fill_rect(232, 178, 144, 15, Color::White),
        draw_rect(232, 178, 144, 15, Color::Black),
        draw_rect(235, 181, 138, 9, Color::Black),
    ];
    if bar_is_dark(value, delta, should_blink) {
        frame
    } else {
        let length = BAR_LENGTH * bar_level(value) / (UNIT as int);
        frame.push(fill_rect(235, 181, length, 9, Color::Black))
    }
}

/// Draws the velocity bar for a speed and a travel in fixed point.
pub fn draw_velocity_bar(value: i64, delta: u64, should_blink: bool) -> (picture: Vec<DrawCmd>)
    ensures
        picture.deep_view() == velocity_bar_picture(value as int, delta as int, should_blink),
{
    let level: i64 = if value < 0 {
        0
    } else if value > UNIT {
        UNIT
    } else {
        value
    };
    let mut picture: Vec<DrawCmd> = Vec::new();
    // Text
    picture.push(label("Velocity:", 232, 154));
    // Bar
    picture.push(Command::FillRect { x: 232, y: 178, width: 144, height: 15, color: Color::White });
    picture.push(Command::DrawRect { x: 232, y: 178, width: 144, height: 15, color: Color::Black });
    picture.push(Command::DrawRect { x: 235, y: 181, width: 138, height: 9, color: Color::Black });
    // Bar will flash if above 95%
    if should_blink && level > 1_425_000 && delta % 60_000_000 < 30_000_000 {
        assert(picture.deep_view() =~= velocity_bar_picture(
            value as int,
            delta as int,
            should_blink,
        ));
        return picture;
    }
    let length: i64 = 138 * level / UNIT;
    assert(0 <= length <= 138) by (nonlinear_arith)
        requires
            0 <= level <= 1_500_000,
            length == 138 * level / 1_500_000,
    ;
    picture.push(
        Command::FillRect { x: 235, y: 181, width: length as i32, height: 9, color: Color::Black },
    );
    assert(picture.deep_view() =~= velocity_bar_picture(value as int, delta as int, should_blink));
    picture
}

/// The screen after an explosion: a white box that unfolds over black as the
/// timer runs, and once it has run, the frame of the box and the verdict.
pub open spec fn post_explosion_picture(timer: Fraction) -> Seq<Shape> {
    let unfolding = seq![
        fill_rect(0, 0, SCREEN_WIDTH as int, SCREEN_HEIGHT as int, Color::Black),
        fill_rect(29, 71, timer.part_of(342), timer.part_of(98), Color::White),
    ];
    if timer.is_complete() {
        unfolding + seq![
            draw_rect(29, 71, 342, 98, Color::Black),
            draw_rect(32, 74, 336, 92, Color::Black),
            draw_text("I told you not accelerate too much"@, 44, 84),
            draw_text("Oh and by the way, you're fired"@, 44, 108),
            draw_text("Press B to try again"@, 44, 141),
        ]
    } else {
        unfolding
    }
}

/// Draws the screen after an explosion, as far as the timer has come. The
/// timer's end must not be zero.
pub fn draw_post_explosion_screen(timer: Fraction) -> (picture: Vec<DrawCmd>)
    requires
        timer.denominator != 0,
    ensures
        picture.deep_view() == post_explosion_picture(timer),
{
    let mut picture: Vec<DrawCmd> = Vec::new();
    // Background
    picture.push(
        Command::FillRect {
            x: 0,
            y: 0,
            width: SCREEN_WIDTH,
            height: SCREEN_HEIGHT,
            color: Color::Black,
        },
    );
    // Box
    picture.push(
        Command::FillRect {
            x: 29,
            y: 71,
            width: timer.of(342),
            height: timer.of(98),
            color: Color::White,
        },
    );
    // Show edges and text only if timer has been reached
    if !timer.complete() {
        assert(picture.deep_view() =~= post_explosion_picture(timer));
        return picture;
    }
    picture.push(Command::DrawRect { x: 29, y: 71, width: 342, height: 98, color: Color::Black });
    picture.push(Command::DrawRect { x: 32, y: 74, width: 336, height: 92, color: Color::Black });
    // Text
    picture.push(label("I told you not accelerate too much", 44, 84));
    picture.push(label("Oh and by the way, you're fired", 44, 108));
    picture.push(label("Press B to try again", 44, 141));
    assert(picture.deep_view() =~= post_explosion_picture(timer));
    picture
}

/// Where the train has stopped, in words: how far from Ciampino, and on which
/// side of it. A train less than a metre short counts as past the station.
pub open spec fn whereabouts(delta: int) -> Seq<char> {
    "You are "@ + length_text(distance_error_spec(delta), " km"@, " meters"@) + if stops_short_spec(
        delta,
    ) {
        " before Ciampino"@
    } else {
        " after Ciampino"@
    }
}

/// The closing screen of a run that arrived: a white box that unfolds as the
/// timer runs, and once it has run, the frame of the box, where the train has
/// stopped, the minister's verdict and the score.
pub open spec fn game_ended_picture(timer: Fraction, delta: int, score: int) -> Seq<Shape> {
    let unfolding = seq![
        fill_rect(0, 0, SCREEN_WIDTH as int, SCREEN_HEIGHT as int, Color::Xor),
        fill_rect(28, 55, timer.part_of(344), timer.part_of(129), Color::White),
    ];
    if timer.is_complete() {
        unfolding + seq![
            draw_rect(28, 55, 344, 129, Color::Black),
            draw_rect(32, 59, 336, 121, Color::Black),
            draw_text(whereabouts(delta), 44, 69),
            draw_text(rating_spec(distance_error_spec(delta))@, 44, 93),
            draw_text("Final score: "@ + decimal(score), 44, 117),
            draw_text("Press B to try again"@, 44, 155),
        ]
    } else {
        unfolding
    }
}

/// Draws the closing screen of a run that arrived after a travel of `delta`,
/// in fixed point, with the given score, as far as the timer has come. The
/// timer's end must not be zero.
pub fn draw_game_ended_screen(timer: Fraction, delta: u64, score: i32) -> (picture: Vec<DrawCmd>)
    requires
        timer.denominator != 0,
    ensures
        picture.deep_view() == game_ended_picture(timer, delta as int, score as int),
{
    let mut picture: Vec<DrawCmd> = Vec::new();
    // Background
    picture.push(
        Command::FillRect {
            x: 0,
            y: 0,
            width: SCREEN_WIDTH,
            height: SCREEN_HEIGHT,
            color: Color::Xor,
        },
    );
    // Box
    picture.push(
        Command::FillRect {
            x: 28,
            y: 55,
            width: timer.of(344),
            height: timer.of(129),
            color: Color::White,
        },
    );
    // Show edges and text only if timer has been reached
    if !timer.complete() {
        assert(picture.deep_view() =~= game_ended_picture(timer, delta as int, score as int));
        return picture;
    }
    // Edges
    picture.push(Command::DrawRect { x: 28, y: 55, width: 344, height: 129, color: Color::Black });
    picture.push(Command::DrawRect { x: 32, y: 59, width: 336, height: 121, color: Color::Black });
    // Text
    let distance: i32 = distance_error(delta);
    let mut text = String::from_str("You are ");
    push_length(&mut text, distance, " km", " meters");
    text.append(
        if stops_short(delta) {
            " before Ciampino"
        } else {
            " after Ciampino"
        },
    );
    assert(text@ =~= whereabouts(delta as int));
    picture.push(Command::DrawText { text, x: 44, y: 69 });
    picture.push(label(prime_minister_rating(distance), 44, 93));
    let mut score_text = String::from_str("Final score: ");
    push_decimal(&mut score_text, score as i64);
    picture.push(Command::DrawText { text: score_text, x: 44, y: 117 });
    picture.push(label("Press B to try again", 44, 155));
    assert(picture.deep_view() =~= game_ended_picture(timer, delta as int, score as int));
    picture
}

} // verus!
