use vstd::prelude::*;

use crate::mood::{mood_face, mood_word, Mood};
use crate::pet::{sat_sub_u8, Pet};
use crate::scene::{push_shapes, render_all, scene, scene_of};

verus! {

/// A ten-character text gauge: one `#` per started tenth of `v`, then dots.
pub open spec fn bar(v: u8) -> Seq<char> {
    Seq::new(10, |i: int| if i < (v + 9) / 10 { '#' } else { '.' })
}

/// A bar shows only how many cells are lit, at most ten.
pub proof fn lemma_bar_by_cells(v1: u8, v2: u8)
    requires
        (if (v1 + 9) / 10 > 10 { 10 } else { (v1 + 9) / 10 }) == (if (v2 + 9) / 10 > 10 {
            10
        } else {
            (v2 + 9) / 10
        }),
    ensures
        bar(v1) == bar(v2),
{
    assert(bar(v1) =~= bar(v2));
}

/// A text bar is ten cells: cell `i` is lit exactly when `v` goes past
/// `10 * i`, so the lit cells (the started tenths, at most ten) come first
/// and dots fill the rest; a full gauge of 100 lights all ten.
pub proof fn law_bar_cells(v: u8)
    ensures
        bar(v).len() == 10,
        forall|i: int| 0 <= i < 10 ==> (#[trigger] bar(v)[i] == '#' <==> 10 * i < v),
        forall|i: int| 0 <= i < 10 ==> (#[trigger] bar(v)[i] == '#' || bar(v)[i] == '.'),
        v >= 91 ==> bar(v) == seq!['#', '#', '#', '#', '#', '#', '#', '#', '#', '#'],
        v == 0 ==> bar(v) == seq!['.', '.', '.', '.', '.', '.', '.', '.', '.', '.'],
{
    assert forall|i: int| 0 <= i < 10 implies (#[trigger] bar(v)[i] == '#' <==> 10 * i < v) by {
        assert(i < (v + 9) / 10 <==> 10 * i < v);
    }
    if v >= 91 {
        assert(bar(v) =~= seq!['#', '#', '#', '#', '#', '#', '#', '#', '#', '#']);
    }
    if v == 0 {
        assert(bar(v) =~= seq!['.', '.', '.', '.', '.', '.', '.', '.', '.', '.']);
    }
}

/// A fuller gauge never lights fewer cells.
pub proof fn law_bar_monotone(v1: u8, v2: u8)
    requires
        v1 <= v2,
    ensures
        forall|i: int| 0 <= i < 10 && #[trigger] bar(v1)[i] == '#' ==> bar(v2)[i] == '#',
{
    law_bar_cells(v1);
    law_bar_cells(v2);
}

/// The widget update on a host that cannot draw: the mood word in the title,
/// then the face and two text gauges.
pub open spec fn card_text(mood: Mood, hunger: u8, joy: u8) -> Seq<char> {
    "{\"t\":\"update_widget\",\"widget\":{\"id\":\"pet\",\"title\":\"tama \u{b7} "@ + mood_word(mood)
        + "\",\"lines\":[\""@ + mood_face(mood) + "\",\"food "@ + bar(sat_sub_u8(100, hunger))
        + "\",\"joy  "@ + bar(joy) + "\"]}}\n"@
}

/// The widget update on a host that draws: the mood word in the title and
/// the draw list of the scene.
pub open spec fn canvas_text(mood: Mood, dy: int, closed: bool, p: u64, food: u8, joy: u8) -> Seq<char> {
    "{\"t\":\"update_widget\",\"widget\":{\"id\":\"pet\",\"title\":\"tama \u{b7} "@ + mood_word(mood)
        + "\",\"lines\":[],\"canvas_h\":150,\"draw\":["@ + render_all(scene_of(mood, dy, closed, p, food, joy))
        + "]}}\n"@
}

impl Pet {
    /// Eyes are drawn shut while asleep or blinking.
    pub open spec fn eyes_closed(self) -> bool {
        self.current_mood() == Mood::Sleepy || self.eyes_shut_for_blink()
    }

    pub open spec fn card(self) -> Seq<char> {
        card_text(self.current_mood(), self.hunger, self.joy)
    }

    pub open spec fn canvas(self) -> Seq<char> {
        canvas_text(
            self.current_mood(),
            self.offset(),
            self.eyes_closed(),
            self.phase(),
            self.food_level(),
            self.joy_level(),
        )
    }

    pub open spec fn widget(self) -> Seq<char> {
        if self.tier2 { self.canvas() } else { self.card() }
    }
}

fn push_bar(out: &mut String, v: u8)
    ensures
        final(out)@ == old(out)@ + bar(v),
{
    let ghost start = out@;
    let filled: u32 = (v as u32 + 9) / 10;
    let mut i: u32 = 0;
    while i < 10
        invariant
            i <= 10,
            filled == (v + 9) / 10,
            out@ =~= start + bar(v).take(i as int),
        decreases 10 - i,
    {
        if i < filled {
            out.push('#');
        } else {
            out.push('.');
        }
        i = i + 1;
    }
}

impl Pet {
    /// The widget update for this host: the drawn canvas on a Tier-2 host,
    /// the text card otherwise.
    pub fn widget_line(&self) -> (s: String)
        requires
            self.tier2 ==> self.offset_defined(),
        ensures
            s@ == self.widget(),
    {
        if self.tier2 {
            self.v2_line()
        } else {
            self.v1_line()
        }
    }

    /// The Tier-1 fallback: a face plus two text bars.
    pub fn v1_line(&self) -> (s: String)
        ensures
            s@ == self.card(),
    {
        let m = self.mood();
        let food: u8 = if self.hunger <= 100 { 100 - self.hunger } else { 0 };
        let mut s = String::new();
        s.append("{\"t\":\"update_widget\",\"widget\":{\"id\":\"pet\",\"title\":\"tama \u{b7} ");
        s.append(m.word());
        s.append("\",\"lines\":[\"");
        s.append(m.face());
        s.append("\",\"food ");
        push_bar(&mut s, food);
        s.append("\",\"joy  ");
        push_bar(&mut s, self.joy);
        s.append("\"]}}\n");
        s
    }

    /// The Tier-2 view: a pixel creature drawn from rects and text, plus two
    /// segmented gauges, in coordinates normalized to the canvas box.
    pub fn v2_line(&self) -> (s: String)
        requires
            self.offset_defined(),
        ensures
            s@ == self.canvas(),
    {
        let mood = self.mood();
        let dy = self.bob();
        let asleep = match mood {
            Mood::Sleepy => true,
            _ => false,
        };
        let closed = asleep || self.blinking();
        let p = self.overlay_phase();
        let shapes = scene(mood, dy, closed, p, self.food_fill(), self.joy_fill());
        let mut s = String::new();
        s.append("{\"t\":\"update_widget\",\"widget\":{\"id\":\"pet\",\"title\":\"tama \u{b7} ");
        s.append(mood.word());
        s.append("\",\"lines\":[],\"canvas_h\":150,\"draw\":[");
        push_shapes(&mut s, &shapes);
        s.append("]}}\n");
        s
    }
}

} // verus!
