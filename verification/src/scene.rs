use vstd::prelude::*;

use crate::mood::Mood;
use crate::text::{escaped, esc, fixed4, push_fixed4};

verus! {

// Creature palette: fixed colors so the pet reads on any theme; the gauges
// use palette roles so their track and label blend into the dock.
pub const BODY: &'static str = "#7fd1a6";
pub const BODY_SHADE: &'static str = "#5cb98a";
pub const BELLY: &'static str = "#d6f1e4";
pub const LINE: &'static str = "#243430";
pub const SHINE: &'static str = "#ffffff";
pub const CHEEK: &'static str = "#f3a6b0";
pub const HEART: &'static str = "#ef5d72";
pub const SPARK: &'static str = "#ffd166";
pub const FOOD: &'static str = "#83a06d";
pub const JOY: &'static str = "#6486a6";
pub const TRACK: &'static str = "ink3";
pub const LABEL: &'static str = "mute";

/// One drawing primitive. Coordinates and sizes are in ten-thousandths of the
/// canvas box (so `4000` is `0.4`).
#[derive(Clone, Copy)]
pub enum Shape {
    Rect { x: u32, y: u32, w: u32, h: u32, color: &'static str },
    Text { x: u32, y: u32, text: &'static str, color: &'static str },
}

/// A coordinate `base` moved down by `dy` (up when negative).
pub open spec fn at(base: int, dy: int) -> u32 {
    (base + dy) as u32
}

pub open spec fn rect(x: int, y: int, w: int, h: int, color: &'static str) -> Shape {
    Shape::Rect { x: x as u32, y: y as u32, w: w as u32, h: h as u32, color }
}

pub open spec fn label(x: int, y: int, text: &'static str, color: &'static str) -> Shape {
    Shape::Text { x: x as u32, y: y as u32, text, color }
}

/// Ears, the stacked slabs of the body with the belly highlight, and the feet.
pub open spec fn body_shapes(dy: int) -> Seq<Shape> {
    seq![
        rect(4000, at(850, dy) as int, 600, 600, BODY),
        rect(5400, at(850, dy) as int, 600, 600, BODY),
        rect(4150, at(1000, dy) as int, 300, 350, BELLY),
        rect(5550, at(1000, dy) as int, 300, 350, BELLY),
        rect(4000, at(1200, dy) as int, 2000, 700, BODY),
        rect(3450, at(1750, dy) as int, 3100, 700, BODY),
        rect(3000, at(2350, dy) as int, 4000, 2000, BODY),
        rect(3350, at(4300, dy) as int, 3300, 750, BODY),
        rect(3850, at(5000, dy) as int, 2300, 500, BODY_SHADE),
        rect(4100, at(3100, dy) as int, 1800, 1400, BELLY),
        rect(4000, at(5450, dy) as int, 700, 300, BODY_SHADE),
        rect(5300, at(5450, dy) as int, 700, 300, BODY_SHADE),
    ]
}

/// Rosy cheeks on a happy face.
pub open spec fn cheek_shapes(happy: bool, dy: int) -> Seq<Shape> {
    if happy {
        seq![
            rect(3500, at(3500, dy) as int, 450, 300, CHEEK),
            rect(6050, at(3500, dy) as int, 450, 300, CHEEK),
        ]
    } else {
        seq![]
    }
}

/// Shut eyes are two lines; open eyes are two dark squares with a shine.
pub open spec fn eye_shapes(closed: bool, dy: int) -> Seq<Shape> {
    if closed {
        seq![
            rect(4050, at(3050, dy) as int, 600, 140, LINE),
            rect(5450, at(3050, dy) as int, 600, 140, LINE),
        ]
    } else {
        seq![
            rect(4050, at(2650, dy) as int, 600, 800, LINE),
            rect(5450, at(2650, dy) as int, 600, 800, LINE),
            rect(4400, at(2770, dy) as int, 180, 220, SHINE),
            rect(5800, at(2770, dy) as int, 180, 220, SHINE),
        ]
    }
}

/// The mouth, by mood.
pub open spec fn mouth_shapes(mood: Mood, dy: int) -> Seq<Shape> {
    match mood {
        Mood::Excited => seq![
            rect(4550, at(4000, dy) as int, 900, 550, LINE),
            rect(4750, at(4300, dy) as int, 500, 200, CHEEK),
        ],
        Mood::Hungry => seq![rect(4600, at(4000, dy) as int, 800, 600, LINE)],
        Mood::Happy | Mood::Petted => seq![
            rect(4600, at(4250, dy) as int, 800, 140, LINE),
            rect(4450, at(4100, dy) as int, 200, 140, LINE),
            rect(5350, at(4100, dy) as int, 200, 140, LINE),
        ],
        Mood::Sad => seq![
            rect(4600, at(4150, dy) as int, 800, 140, LINE),
            rect(4450, at(4300, dy) as int, 200, 140, LINE),
            rect(5350, at(4300, dy) as int, 200, 140, LINE),
            rect(4300, at(3400, dy) as int, 200, 300, JOY),
        ],
        Mood::Sleepy => seq![rect(4850, at(4200, dy) as int, 300, 120, LINE)],
        Mood::Neutral => seq![rect(4700, at(4150, dy) as int, 600, 140, LINE)],
    }
}

/// The animated overlay at phase `p`: sparkles and a rising heart when
/// excited, a heart when petted, a drifting z when asleep.
pub open spec fn overlay_shapes(mood: Mood, p: u64) -> Seq<Shape> {
    match mood {
        Mood::Excited => (if p % 2 == 0 {
            seq![label(2000, 1000, "*", SPARK), label(7200, 400, "*", SPARK)]
        } else {
            seq![label(7400, 1600, "+", SPARK), label(1800, 2200, "+", SPARK)]
        }).push(label(6200, 1200 - 200 * p, "<3", HEART)),
        Mood::Petted => seq![label(6000, 1400 - 200 * p, "<3", HEART)],
        Mood::Sleepy => if p % 2 == 0 {
            seq![label(6400, 1200, "z", LABEL)]
        } else {
            seq![label(7000, 500, "Z", LABEL)]
        },
        _ => seq![],
    }
}

/// Ten gauge segments at height `y`, the first `fill` of them in `color`.
pub open spec fn segments(y: int, fill: u8, color: &'static str) -> Seq<Shape> {
    Seq::new(10, |i: int| rect(3100 + 580 * i, y, 450, 500, if i < fill { color } else { TRACK }))
}

/// The two labelled gauges.
pub open spec fn gauge_shapes(food: u8, joy: u8) -> Seq<Shape> {
    seq![label(300, 6900, "food", LABEL)] + segments(7100, food, FOOD)
        + seq![label(300, 8500, "joy", LABEL)] + segments(8700, joy, JOY)
}

pub open spec fn is_happy(mood: Mood) -> bool {
    mood == Mood::Happy || mood == Mood::Excited || mood == Mood::Petted
}

/// The whole drawing: a pixel creature offset by `dy`, with shut eyes when
/// `closed`, its overlay at phase `p`, and the food and joy gauges.
pub open spec fn scene_of(mood: Mood, dy: int, closed: bool, p: u64, food: u8, joy: u8) -> Seq<Shape> {
    body_shapes(dy) + cheek_shapes(is_happy(mood), dy) + eye_shapes(closed, dy)
        + mouth_shapes(mood, dy) + overlay_shapes(mood, p) + gauge_shapes(food, joy)
}

/// One primitive as a draw-list JSON object.
pub open spec fn render_shape(s: Shape) -> Seq<char> {
    match s {
        Shape::Rect { x, y, w, h, color } => "{\"t\":\"rect\",\"x\":"@ + fixed4(x as nat) + ",\"y\":"@
            + fixed4(y as nat) + ",\"w\":"@ + fixed4(w as nat) + ",\"h\":"@ + fixed4(h as nat)
            + ",\"color\":\""@ + color@ + "\"}"@,
        Shape::Text { x, y, text, color } => "{\"t\":\"text\",\"x\":"@ + fixed4(x as nat) + ",\"y\":"@
            + fixed4(y as nat) + ",\"text\":\""@ + escaped(text@) + "\",\"color\":\""@ + color@ + "\"}"@,
    }
}

/// The primitives rendered and joined with commas.
pub open spec fn render_all(shapes: Seq<Shape>) -> Seq<char>
    decreases shapes.len(),
{
    if shapes.len() == 0 {
        seq![]
    } else if shapes.len() == 1 {
        render_shape(shapes[0])
    } else {
        render_all(shapes.drop_last()) + ","@ + render_shape(shapes.last())
    }
}

fn shift(base: u32, dy: i32) -> (y: u32)
    requires
        850 <= base <= 10000,
        -780 <= dy <= 220,
    ensures
        y == at(base as int, dy as int),
{
    (base as i32 + dy) as u32
}

fn push_rect(v: &mut Vec<Shape>, x: u32, y: u32, w: u32, h: u32, color: &'static str)
    ensures
        final(v)@ == old(v)@.push(rect(x as int, y as int, w as int, h as int, color)),
{
    v.push(Shape::Rect { x, y, w, h, color });
}

fn push_label(v: &mut Vec<Shape>, x: u32, y: u32, text: &'static str, color: &'static str)
    ensures
        final(v)@ == old(v)@.push(label(x as int, y as int, text, color)),
{
    v.push(Shape::Text { x, y, text, color });
}

fn push_body(v: &mut Vec<Shape>, dy: i32)
    requires
        -780 <= dy <= 220,
    ensures
        final(v)@ == old(v)@ + body_shapes(dy as int),
{
    push_rect(v, 4000, shift(850, dy), 600, 600, BODY);
    push_rect(v, 5400, shift(850, dy), 600, 600, BODY);
    push_rect(v, 4150, shift(1000, dy), 300, 350, BELLY);
    push_rect(v, 5550, shift(1000, dy), 300, 350, BELLY);
    push_rect(v, 4000, shift(1200, dy), 2000, 700, BODY);
    push_rect(v, 3450, shift(1750, dy), 3100, 700, BODY);
    push_rect(v, 3000, shift(2350, dy), 4000, 2000, BODY);
    push_rect(v, 3350, shift(4300, dy), 3300, 750, BODY);
    push_rect(v, 3850, shift(5000, dy), 2300, 500, BODY_SHADE);
    push_rect(v, 4100, shift(3100, dy), 1800, 1400, BELLY);
    push_rect(v, 4000, shift(5450, dy), 700, 300, BODY_SHADE);
    push_rect(v, 5300, shift(5450, dy), 700, 300, BODY_SHADE);
}

fn push_face(v: &mut Vec<Shape>, mood: Mood, dy: i32, closed: bool)
    requires
        -780 <= dy <= 220,
    ensures
        final(v)@ == old(v)@ + cheek_shapes(is_happy(mood), dy as int) + eye_shapes(closed, dy as int)
            + mouth_shapes(mood, dy as int),
{
    let happy = match mood {
        Mood::Happy | Mood::Excited | Mood::Petted => true,
        _ => false,
    };
    if happy {
        push_rect(v, 3500, shift(3500, dy), 450, 300, CHEEK);
        push_rect(v, 6050, shift(3500, dy), 450, 300, CHEEK);
    }
    if closed {
        push_rect(v, 4050, shift(3050, dy), 600, 140, LINE);
        push_rect(v, 5450, shift(3050, dy), 600, 140, LINE);
    } else {
        push_rect(v, 4050, shift(2650, dy), 600, 800, LINE);
        push_rect(v, 5450, shift(2650, dy), 600, 800, LINE);
        push_rect(v, 4400, shift(2770, dy), 180, 220, SHINE);
        push_rect(v, 5800, shift(2770, dy), 180, 220, SHINE);
    }
    match mood {
        Mood::Excited => {
            push_rect(v, 4550, shift(4000, dy), 900, 550, LINE);
            push_rect(v, 4750, shift(4300, dy), 500, 200, CHEEK);
        },
        Mood::Hungry => {
            push_rect(v, 4600, shift(4000, dy), 800, 600, LINE);
        },
        Mood::Happy | Mood::Petted => {
            push_rect(v, 4600, shift(4250, dy), 800, 140, LINE);
            push_rect(v, 4450, shift(4100, dy), 200, 140, LINE);
            push_rect(v, 5350, shift(4100, dy), 200, 140, LINE);
        },
        Mood::Sad => {
            push_rect(v, 4600, shift(4150, dy), 800, 140, LINE);
            push_rect(v, 4450, shift(4300, dy), 200, 140, LINE);
            push_rect(v, 5350, shift(4300, dy), 200, 140, LINE);
            push_rect(v, 4300, shift(3400, dy), 200, 300, JOY);
        },
        Mood::Sleepy => {
            push_rect(v, 4850, shift(4200, dy), 300, 120, LINE);
        },
        Mood::Neutral => {
            push_rect(v, 4700, shift(4150, dy), 600, 140, LINE);
        },
    }
}

fn push_overlay(v: &mut Vec<Shape>, mood: Mood, p: u64)
    requires
        p < 4,
    ensures
        final(v)@ == old(v)@ + overlay_shapes(mood, p),
{
    match mood {
        Mood::Excited => {
            if p % 2 == 0 {
                push_label(v, 2000, 1000, "*", SPARK);
                push_label(v, 7200, 400, "*", SPARK);
            } else {
                push_label(v, 7400, 1600, "+", SPARK);
                push_label(v, 1800, 2200, "+", SPARK);
            }
            push_label(v, 6200, (1200 - 200 * p) as u32, "<3", HEART);
        },
        Mood::Petted => {
            push_label(v, 6000, (1400 - 200 * p) as u32, "<3", HEART);
        },
        Mood::Sleepy => {
            if p % 2 == 0 {
                push_label(v, 6400, 1200, "z", LABEL);
            } else {
                push_label(v, 7000, 500, "Z", LABEL);
            }
        },
        _ => {},
    }
}

fn push_segments(v: &mut Vec<Shape>, y: u32, fill: u8, color: &'static str)
    ensures
        final(v)@ == old(v)@ + segments(y as int, fill, color),
{
    let ghost start = v@;
    let mut i: u32 = 0;
    while i < 10
        invariant
            i <= 10,
            v@ =~= start + segments(y as int, fill, color).take(i as int),
        decreases 10 - i,
    {
        let c = if i < fill as u32 { color } else { TRACK };
        push_rect(v, 3100 + 580 * i, y, 450, 500, c);
        assert(segments(y as int, fill, color).take(i + 1) =~= segments(y as int, fill, color).take(
            i as int,
        ).push(segments(y as int, fill, color)[i as int]));
        i = i + 1;
    }
}

/// Builds the canvas draw list: the creature offset by `dy` (eyes shut when
/// `closed`), its overlay at phase `p`, and the food and joy gauges with
/// `food` and `joy` segments lit.
pub fn scene(mood: Mood, dy: i32, closed: bool, p: u64, food: u8, joy: u8) -> (v: Vec<Shape>)
    requires
        -780 <= dy <= 220,
        p < 4,
    ensures
        v@ == scene_of(mood, dy as int, closed, p, food, joy),
{
    let mut v: Vec<Shape> = Vec::new();
    push_body(&mut v, dy);
    push_face(&mut v, mood, dy, closed);
    push_overlay(&mut v, mood, p);
    push_label(&mut v, 300, 6900, "food", LABEL);
    push_segments(&mut v, 7100, food, FOOD);
    push_label(&mut v, 300, 8500, "joy", LABEL);
    push_segments(&mut v, 8700, joy, JOY);
    v
}

/// Appends one primitive as a draw-list JSON object.
pub fn push_shape(out: &mut String, s: &Shape)
    ensures
        final(out)@ == old(out)@ + render_shape(*s),
{
    match s {
        Shape::Rect { x, y, w, h, color } => {
            out.append("{\"t\":\"rect\",\"x\":");
            push_fixed4(out, *x);
            out.append(",\"y\":");
            push_fixed4(out, *y);
            out.append(",\"w\":");
            push_fixed4(out, *w);
            out.append(",\"h\":");
            push_fixed4(out, *h);
            out.append(",\"color\":\"");
            out.append(color);
            out.append("\"}");
        },
        Shape::Text { x, y, text, color } => {
            out.append("{\"t\":\"text\",\"x\":");
            push_fixed4(out, *x);
            out.append(",\"y\":");
            push_fixed4(out, *y);
            out.append(",\"text\":\"");
            let t = esc(text);
            out.append(t.as_str());
            out.append("\",\"color\":\"");
            out.append(color);
            out.append("\"}");
        },
    }
}

/// Appends the primitives as JSON objects separated by commas.
pub fn push_shapes(out: &mut String, shapes: &Vec<Shape>)
    ensures
        final(out)@ == old(out)@ + render_all(shapes@),
{
    let ghost start = out@;
    let mut i: usize = 0;
    while i < shapes.len()
        invariant
            i <= shapes@.len(),
            out@ == start + render_all(shapes@.take(i as int)),
        decreases shapes.len() - i,
    {
        if i > 0 {
            out.append(",");
        }
        push_shape(out, &shapes[i]);
        assert(shapes@.take(i + 1).drop_last() =~= shapes@.take(i as int));
        i = i + 1;
    }
    assert(shapes@.take(shapes@.len() as int) =~= shapes@);
}

} // verus!

verus! {

/// A rectangle in color `c`.
pub open spec fn is_rect_in(s: Shape, c: &'static str) -> bool {
    s matches Shape::Rect { color, .. } && color == c
}

/// A text label in color `c`.
pub open spec fn is_text_in(s: Shape, c: &'static str) -> bool {
    s matches Shape::Text { color, .. } && color == c
}

/// A rectangle in the line color.
pub open spec fn is_line_rect(s: Shape) -> bool {
    is_rect_in(s, LINE)
}

pub open spec fn sx(s: Shape) -> int {
    match s {
        Shape::Rect { x, .. } => x as int,
        Shape::Text { x, .. } => x as int,
    }
}

pub open spec fn sy(s: Shape) -> int {
    match s {
        Shape::Rect { y, .. } => y as int,
        Shape::Text { y, .. } => y as int,
    }
}

pub open spec fn sw(s: Shape) -> int {
    match s {
        Shape::Rect { w, .. } => w as int,
        Shape::Text { .. } => 0,
    }
}

pub open spec fn sh(s: Shape) -> int {
    match s {
        Shape::Rect { h, .. } => h as int,
        Shape::Text { .. } => 0,
    }
}

/// A line mouth: a rectangle in the line color at least four times as wide
/// as it is tall.
pub open spec fn is_flat_line(s: Shape) -> bool {
    is_line_rect(s) && 4 * sh(s) < sw(s)
}

/// A mouth of three strokes: a flat bar and two corner strokes of the line
/// color at one height, one past each end of the bar; `up` says whether the
/// corners sit above the bar (a smile) or below it (a frown).
pub open spec fn curved_mouth(m: Seq<Shape>, up: bool) -> bool {
    &&& m.len() >= 3
    &&& is_flat_line(m[0])
    &&& is_line_rect(m[1])
    &&& is_line_rect(m[2])
    &&& sy(m[1]) == sy(m[2])
    &&& if up { sy(m[1]) < sy(m[0]) } else { sy(m[1]) > sy(m[0]) }
    &&& sx(m[1]) < sx(m[0])
    &&& sx(m[2]) + sw(m[2]) > sx(m[0]) + sw(m[0])
}

/// Each mood wears its own mouth: a smile when happy or petted, a frown with
/// a tear when sad, a single flat line when neutral, a wide open mouth when
/// hungry, an open mouth with the tongue showing when excited, and a small
/// dash when asleep. So no two moods with different faces share a mouth.
pub proof fn law_mouth_by_mood(dy: int)
    requires
        -780 <= dy <= 220,
    ensures
        curved_mouth(mouth_shapes(Mood::Happy, dy), true) && mouth_shapes(Mood::Happy, dy).len() == 3,
        curved_mouth(mouth_shapes(Mood::Petted, dy), true) && mouth_shapes(Mood::Petted, dy).len() == 3,
        curved_mouth(mouth_shapes(Mood::Sad, dy), false) && mouth_shapes(Mood::Sad, dy).len() == 4
            && is_rect_in(mouth_shapes(Mood::Sad, dy)[3], JOY),
        mouth_shapes(Mood::Neutral, dy).len() == 1 && is_flat_line(mouth_shapes(Mood::Neutral, dy)[0]),
        mouth_shapes(Mood::Hungry, dy).len() == 1 && is_line_rect(mouth_shapes(Mood::Hungry, dy)[0])
            && 2 * sh(mouth_shapes(Mood::Hungry, dy)[0]) >= sw(mouth_shapes(Mood::Hungry, dy)[0]),
        mouth_shapes(Mood::Excited, dy).len() == 2 && is_line_rect(mouth_shapes(Mood::Excited, dy)[0])
            && 2 * sh(mouth_shapes(Mood::Excited, dy)[0]) >= sw(mouth_shapes(Mood::Excited, dy)[0])
            && ({
            let open = mouth_shapes(Mood::Excited, dy)[0];
            let tongue = mouth_shapes(Mood::Excited, dy)[1];
            &&& is_rect_in(tongue, CHEEK)
            &&& sx(open) < sx(tongue) && sx(tongue) + sw(tongue) < sx(open) + sw(open)
            &&& sy(open) < sy(tongue) && sy(tongue) + sh(tongue) < sy(open) + sh(open)
        }),
        mouth_shapes(Mood::Sleepy, dy).len() == 1 && is_line_rect(mouth_shapes(Mood::Sleepy, dy)[0])
            && sw(mouth_shapes(Mood::Sleepy, dy)[0]) < sw(mouth_shapes(Mood::Neutral, dy)[0])
            && sh(mouth_shapes(Mood::Sleepy, dy)[0]) < sh(mouth_shapes(Mood::Neutral, dy)[0]),
        mouth_shapes(Mood::Neutral, dy) != mouth_shapes(Mood::Happy, dy),
{
}

/// The canvas of a pet draws the mouth of its mood: its draw list holds the
/// mood's mouth strokes right after the eyes.
pub proof fn law_scene_shows_mouth(mood: Mood, dy: int, closed: bool, p: u64, food: u8, joy: u8)
    ensures
        ({
            let before = body_shapes(dy) + cheek_shapes(is_happy(mood), dy) + eye_shapes(closed, dy);
            scene_of(mood, dy, closed, p, food, joy).subrange(
                before.len() as int,
                (before.len() + mouth_shapes(mood, dy).len()) as int,
            ) == mouth_shapes(mood, dy)
        }),
{
    let before = body_shapes(dy) + cheek_shapes(is_happy(mood), dy) + eye_shapes(closed, dy);
    let sc = scene_of(mood, dy, closed, p, food, joy);
    assert(sc.subrange(before.len() as int, (before.len() + mouth_shapes(mood, dy).len()) as int) =~= mouth_shapes(
        mood,
        dy,
    ));
}

/// A gauge lights exactly its first `fill` segments (all ten when `fill` is
/// ten or more) in its color and leaves the rest in the track color; the
/// ten segments stand in one row, left to right, evenly spaced.
pub proof fn law_gauge_segments(y: int, fill: u8, color: &'static str)
    requires
        color != TRACK,
        0 <= y <= 10000,
    ensures
        segments(y, fill, color).len() == 10,
        forall|i: int| 0 <= i < 10 ==> (is_rect_in(#[trigger] segments(y, fill, color)[i], color) <==> i < fill),
        forall|i: int| 0 <= i < 10 ==> (is_rect_in(#[trigger] segments(y, fill, color)[i], TRACK) <==> i >= fill),
        forall|i: int| 0 <= i < 10 ==> sy(#[trigger] segments(y, fill, color)[i]) == y,
        forall|i: int| 0 <= i < 9 ==> sx(#[trigger] segments(y, fill, color)[i]) + 580 == sx(
            segments(y, fill, color)[i + 1],
        ),
{
}

/// Eyes are two dark strokes; shut eyes are thin lines, open eyes are tall
/// and each carries a white shine.
pub proof fn law_eyes(dy: int)
    requires
        -780 <= dy <= 220,
    ensures
        eye_shapes(true, dy).len() == 2,
        is_flat_line(eye_shapes(true, dy)[0]) && is_flat_line(eye_shapes(true, dy)[1]),
        eye_shapes(false, dy).len() == 4,
        is_line_rect(eye_shapes(false, dy)[0]) && sh(eye_shapes(false, dy)[0]) > sw(eye_shapes(false, dy)[0]),
        is_line_rect(eye_shapes(false, dy)[1]) && sh(eye_shapes(false, dy)[1]) > sw(eye_shapes(false, dy)[1]),
        is_rect_in(eye_shapes(false, dy)[2], SHINE) && is_rect_in(eye_shapes(false, dy)[3], SHINE),
        sy(eye_shapes(true, dy)[0]) == sy(eye_shapes(true, dy)[1]),
        sy(eye_shapes(false, dy)[0]) == sy(eye_shapes(false, dy)[1]),
{
}

/// Rosy cheeks show exactly on the happy moods (happy, excited, petted).
pub proof fn law_cheeks(mood: Mood, dy: int)
    ensures
        is_happy(mood) <==> (mood == Mood::Happy || mood == Mood::Excited || mood == Mood::Petted),
        is_happy(mood) ==> cheek_shapes(is_happy(mood), dy).len() == 2 && is_rect_in(
            cheek_shapes(is_happy(mood), dy)[0],
            CHEEK,
        ) && is_rect_in(cheek_shapes(is_happy(mood), dy)[1], CHEEK),
        !is_happy(mood) ==> cheek_shapes(is_happy(mood), dy).len() == 0,
{
}

/// The overlay: an excited pet shows two sparkles and a heart that rises
/// with the phase, a petted pet a rising heart, a napping pet a z that
/// alternates between two spots; the other moods show none.
pub proof fn law_overlay(mood: Mood, p: u64)
    requires
        p < 3,
    ensures
        mood == Mood::Excited ==> overlay_shapes(mood, p).len() == 3 && overlay_shapes(mood, p)[2]
            == label(6200, 1200 - 200 * p, "<3", HEART) && sy(overlay_shapes(mood, (p + 1) as u64)[2]) < sy(
            overlay_shapes(mood, p)[2],
        ),
        mood == Mood::Petted ==> overlay_shapes(mood, p).len() == 1 && sy(overlay_shapes(mood, (p + 1) as u64)[0])
            < sy(overlay_shapes(mood, p)[0]) && is_text_in(overlay_shapes(mood, p)[0], HEART),
        mood == Mood::Sleepy ==> overlay_shapes(mood, p).len() == 1 && overlay_shapes(mood, p)
            != overlay_shapes(mood, (p + 1) as u64),
        mood != Mood::Excited && mood != Mood::Petted && mood != Mood::Sleepy ==> overlay_shapes(mood, p).len()
            == 0,
{
}

} // verus!
