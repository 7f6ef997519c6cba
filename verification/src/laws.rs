use vstd::prelude::*;

use crate::events::{blank, mentions};
use crate::handshake::{api_version_key, api_version_of, find_from, occurs_at};
use crate::mood::{mood_face, mood_rank, mood_word, Mood};
use crate::pet::{DECAY_EVERY, offset_code, sat_sub_u8, xorshift, Pet};
use crate::widget::{bar, card_text, lemma_bar_by_cells, law_bar_cells};

verus! {

/// The xorshift generator never reaches zero from a nonzero state, so the
/// pet's randomness never degenerates into a constant stream.
pub proof fn law_xorshift_nonzero(x: u64)
    requires
        x != 0,
    ensures
        xorshift(x) != 0,
{
    let a = x ^ (x << 13u64);
    let b = a ^ (a >> 7u64);
    let c = b ^ (b << 17u64);
    assert(a != 0) by (bit_vector)
        requires
            x != 0,
            a == x ^ (x << 13u64),
    ;
    assert(b != 0) by (bit_vector)
        requires
            a != 0,
            b == a ^ (a >> 7u64),
    ;
    assert(c != 0) by (bit_vector)
        requires
            b != 0,
            c == b ^ (b << 17u64),
    ;
}

/// Every event keeps a well-formed pet well formed: the stats stay within
/// 0..=100 and the generator stays nonzero.
pub proof fn law_events_keep_pet_well_formed(p: Pet)
    requires
        p.wf(),
    ensures
        p.frame + 110 <= u64::MAX ==> p.can_tick() && p.ticked().wf(),
        p.belled().wf(),
        p.focused().wf(),
        p.stroked().wf(),
        p.joy + 12 <= u8::MAX,
{
    law_xorshift_nonzero(p.rng);
    law_xorshift_nonzero(xorshift(p.rng));
}

/// Any interaction wakes the pet: right after a bell, a focus change or a
/// click it is not asleep.
pub proof fn law_interaction_wakes(p: Pet)
    ensures
        !p.belled().asleep(),
        !p.focused().asleep(),
        !p.stroked().asleep(),
{
}

/// A bell startles the pet: right after it, the pet is excited and its joy
/// is full.
pub proof fn law_bell_excites(p: Pet)
    requires
        p.frame + 14 <= u64::MAX,
    ensures
        p.belled().current_mood() == Mood::Excited,
        p.belled().joy == 100,
        p.belled().hunger <= p.hunger,
{
}

/// A focus change or a click cheers the pet up: right after it the pet is
/// petted (or still excited from a bell), and its joy has not dropped.
pub proof fn law_attention_cheers(p: Pet)
    requires
        p.frame + 10 <= u64::MAX,
        p.joy <= 100,
    ensures
        p.focused().current_mood() == Mood::Excited || p.focused().current_mood() == Mood::Petted,
        p.stroked().current_mood() == Mood::Excited || p.stroked().current_mood() == Mood::Petted,
        p.focused().joy >= p.joy,
        p.stroked().joy >= p.joy,
        p.stroked().hunger <= p.hunger,
{
}

/// A napping pet lies still: a tick that leaves it asleep changes nothing but
/// the frame, on a drift its stats, and the end of a hop that has finished;
/// no blink, no new hop, no draw from the generator.
pub proof fn law_nap_is_still(p: Pet)
    requires
        p.can_tick(),
        p.ticked().asleep(),
    ensures
        p.ticked() == (Pet {
            frame: p.ticked().frame,
            hunger: p.ticked().hunger,
            joy: p.ticked().joy,
            action_end: p.ticked().action_end,
            ..p
        }),
        p.ticked().action_end == p.action_end || p.ticked().action_end == 0,
        p.ticked().frame == p.frame + 1,
{
}

/// Hunger only grows as time passes, by at most two points a tick.
pub proof fn law_tick_never_feeds(p: Pet)
    requires
        p.can_tick(),
        p.hunger <= 100,
    ensures
        p.hunger <= p.ticked().hunger <= p.hunger + 2,
        p.ticked().frame == p.frame + 1,
{
}

proof fn lemma_sig_fields(
    a1: u64, b1: u64, c1: u64, d1: u64, e1: u64, f1: u64,
    a2: u64, b2: u64, c2: u64, d2: u64, e2: u64, f2: u64,
)
    by (bit_vector)
    requires
        a1 < 16, b1 < 16, c1 < 16, d1 < 2, e1 < 1024, f1 < 4,
        a2 < 16, b2 < 16, c2 < 16, d2 < 2, e2 < 1024, f2 < 4,
        a1 | (b1 << 4u64) | (c1 << 9u64) | (d1 << 14u64) | (e1 << 16u64) | (f1 << 28u64)
            == a2 | (b2 << 4u64) | (c2 << 9u64) | (d2 << 14u64) | (e2 << 16u64) | (f2 << 28u64),
    ensures
        a1 == a2, b1 == b2, c1 == c2, d1 == d2, e1 == e2, f1 == f2,
{
}

proof fn lemma_base_fields(a1: u64, b1: u64, c1: u64, a2: u64, b2: u64, c2: u64)
    by (bit_vector)
    requires
        a1 < 16, b1 < 16, c1 < 16,
        a2 < 16, b2 < 16, c2 < 16,
        a1 | (b1 << 4u64) | (c1 << 9u64) == a2 | (b2 << 4u64) | (c2 << 9u64),
    ensures
        a1 == a2, b1 == b2, c1 == c2,
{
}

proof fn lemma_small_mask(x: u64)
    by (bit_vector)
    requires
        x < 1024,
    ensures
        x & 0x3ffu64 == x,
{
}

/// The offsets a pet can show, by mood: a scaled hop while excited or
/// petted, otherwise a hop or the breathing of a nap or of an awake idle.
proof fn lemma_offset_values(p: Pet)
    ensures
        p.current_mood() == Mood::Excited ==> {
            let o = p.offset();
            o == -260 || o == -650 || o == -780 || o == -390 || o == -156 || o == 0
        },
        p.current_mood() == Mood::Petted ==> {
            let o = p.offset();
            o == -140 || o == -350 || o == -420 || o == -210 || o == -84 || o == 0
        },
        p.current_mood() == Mood::Sleepy ==> {
            let o = p.offset();
            o == -200 || o == -500 || o == -600 || o == -300 || o == -120 || o == 0 || o == 120 || o == 220
        },
        p.current_mood() != Mood::Excited && p.current_mood() != Mood::Petted && p.current_mood()
            != Mood::Sleepy ==> {
            let o = p.offset();
            o == -200 || o == -500 || o == -600 || o == -300 || o == -120 || o == 0 || o == 100 || o == 200
        },
{
}

/// Within one mood, distinct offsets enter the signature differently.
proof fn lemma_offset_code_separates(p1: Pet, p2: Pet)
    requires
        p1.current_mood() == p2.current_mood(),
        offset_code(p1.offset()) == offset_code(p2.offset()),
    ensures
        p1.offset() == p2.offset(),
{
    lemma_offset_values(p1);
    lemma_offset_values(p2);
    let o1 = p1.offset();
    let o2 = p2.offset();
    lemma_small_mask(((o1 + 1000) / 50) as u64);
    lemma_small_mask(((o2 + 1000) / 50) as u64);
}

/// The signature decides the mood and the gauges on screen: two pets on the
/// same kind of host with the same signature show the same title and face,
/// and the same gauge levels on a drawing host or the same lit bar cells on
/// a text host.
pub proof fn law_signature_fixes_mood_and_gauges(p1: Pet, p2: Pet)
    requires
        p1.tier2 == p2.tier2,
        p1.signature() == p2.signature(),
    ensures
        p1.current_mood() == p2.current_mood(),
        p1.tier2 ==> p1.food_level() == p2.food_level() && p1.joy_level() == p2.joy_level(),
        !p1.tier2 ==> p1.card_food_cells() == p2.card_food_cells() && p1.card_joy_cells()
            == p2.card_joy_cells(),
{
    let a1 = mood_rank(p1.current_mood());
    let a2 = mood_rank(p2.current_mood());
    if p1.tier2 {
        let d1: u64 = if p1.eyes_shut_for_blink() { 1 } else { 0 };
        let d2: u64 = if p2.eyes_shut_for_blink() { 1 } else { 0 };
        lemma_offset_values(p1);
        lemma_offset_values(p2);
        lemma_small_mask(((p1.offset() + 1000) / 50) as u64);
        lemma_small_mask(((p2.offset() + 1000) / 50) as u64);
        lemma_sig_fields(a1, p1.food_level() as u64, p1.joy_level() as u64, d1, offset_code(p1.offset()),
            p1.phase(), a2, p2.food_level() as u64, p2.joy_level() as u64, d2, offset_code(p2.offset()),
            p2.phase());
    } else {
        lemma_base_fields(a1, p1.card_food_cells() as u64, p1.card_joy_cells() as u64, a2,
            p2.card_food_cells() as u64, p2.card_joy_cells() as u64);
    }
    crate::mood::lemma_rank_identifies_mood(p1.current_mood(), p2.current_mood());
}

/// A frame is skipped only when nothing visible changed: two pets on the
/// same kind of host with the same signature produce the same widget update,
/// so comparing signatures never hides a change of the picture or the card.
pub proof fn law_signature_decides_widget(p1: Pet, p2: Pet)
    requires
        p1.tier2 == p2.tier2,
        p1.signature() == p2.signature(),
    ensures
        p1.widget() == p2.widget(),
{
    law_signature_fixes_mood_and_gauges(p1, p2);
    if p1.tier2 {
        let a1 = mood_rank(p1.current_mood());
        let a2 = mood_rank(p2.current_mood());
        let d1: u64 = if p1.eyes_shut_for_blink() { 1 } else { 0 };
        let d2: u64 = if p2.eyes_shut_for_blink() { 1 } else { 0 };
        lemma_offset_values(p1);
        lemma_offset_values(p2);
        lemma_small_mask(((p1.offset() + 1000) / 50) as u64);
        lemma_small_mask(((p2.offset() + 1000) / 50) as u64);
        lemma_sig_fields(a1, p1.food_level() as u64, p1.joy_level() as u64, d1, offset_code(p1.offset()),
            p1.phase(), a2, p2.food_level() as u64, p2.joy_level() as u64, d2, offset_code(p2.offset()),
            p2.phase());
        lemma_offset_code_separates(p1, p2);
    } else {
        lemma_bar_by_cells(sat_sub_u8(100, p1.hunger), sat_sub_u8(100, p2.hunger));
        lemma_bar_by_cells(p1.joy, p2.joy);
    }
}

/// A frame the timer skips shows nothing new: when the pet last drew on the
/// same kind of host and the ticked pet's signature equals the one it
/// recorded, the ticked pet's widget is exactly the one already on screen.
pub proof fn law_skipped_frame_shows_nothing_new(shown: Pet, p: Pet)
    requires
        shown.tier2 == p.tier2,
        p.last_sig == shown.signature(),
        p.can_tick(),
        p.ticked().signature() == p.last_sig,
    ensures
        p.ticked().widget() == shown.widget(),
{
    law_signature_decides_widget(p.ticked(), shown);
}

/// A well-formed pet with room on its frame counter can take any host line
/// and any tick, and stays well formed through them, drawing included.
pub proof fn law_host_lines_keep_pet_well_formed(p: Pet, s: Seq<char>)
    requires
        p.wf(),
        p.frame + 110 <= u64::MAX,
    ensures
        p.can_answer(s),
        p.can_tick(),
        p.answered(s) matches Some(q) ==> q.wf() && q.drawn().wf(),
        p.ticked().wf() && p.ticked().drawn().wf(),
{
    law_events_keep_pet_well_formed(p);
}

/// A running idle hop is never overrun: ticks and events keep the frame
/// before the end of any hop in progress, so the hop is always within its
/// last six frames.
pub proof fn law_hop_never_overrun(p: Pet)
    requires
        p.hop_in_bounds(),
    ensures
        p.can_tick() ==> p.ticked().hop_in_bounds(),
        p.belled().hop_in_bounds(),
        p.focused().hop_in_bounds(),
        p.stroked().hop_in_bounds(),
{
}

/// The offset of a pet whose hop is in bounds can always be computed, so
/// every pet reached by ticks and events can be drawn.
pub proof fn law_offset_always_defined(p: Pet)
    requires
        p.hop_in_bounds(),
    ensures
        p.offset_defined(),
        p.can_tick() ==> p.ticked().offset_defined(),
{
}

/// A napping pet breathes: with no reaction and no hop in progress, its
/// offset follows the slow breathing cycle, a step every eight frames.
pub proof fn law_napping_pet_breathes(p: Pet)
    requires
        p.asleep(),
        p.frame >= p.excite_end,
        p.frame >= p.pet_end,
        p.action_end == 0,
    ensures
        p.offset() == (if (p.frame / 8) % 4 == 1 || (p.frame / 8) % 4 == 3 {
            120int
        } else if (p.frame / 8) % 4 == 2 {
            220int
        } else {
            0int
        }),
{
}

/// A tick keeps the stats on their gauges: from stats within 0..=100 (and
/// room on the frame counter) a tick cannot overflow and the stats stay
/// within 0..=100.
pub proof fn law_tick_keeps_stats_in_range(p: Pet)
    requires
        p.hunger <= 100,
        p.joy <= 100,
        p.frame + 110 <= u64::MAX,
    ensures
        p.can_tick(),
        p.ticked().hunger <= 100,
        p.ticked().joy <= 100,
{
}

/// Over `n` quiet ticks a well-formed pet stays well formed, its frame moves
/// on by `n`, and the reaction ends and the last interaction stay put.
pub proof fn lemma_quiet_ticks(p: Pet, n: nat)
    requires
        p.wf(),
        p.frame + n + 110 <= u64::MAX,
    ensures
        p.after_ticks(n).wf(),
        p.after_ticks(n).frame == p.frame + n,
        p.after_ticks(n).excite_end == p.excite_end,
        p.after_ticks(n).pet_end == p.pet_end,
        p.after_ticks(n).idle_since == p.idle_since,
        p.after_ticks(n).hunger >= p.hunger,
    decreases n,
{
    if n > 0 {
        lemma_quiet_ticks(p, (n - 1) as nat);
        law_events_keep_pet_well_formed(p.after_ticks((n - 1) as nat));
    }
}

/// A click keeps the pet petted for its ten frames, and a focus change for
/// its six, as long as no bell reaction is running: through `k` quiet ticks
/// after the event the pet is still petted.
pub proof fn law_attention_lasts(p: Pet, k: nat)
    requires
        p.wf(),
        p.frame >= p.excite_end,
        p.frame + k + 120 <= u64::MAX,
    ensures
        k < 10 ==> p.stroked().after_ticks(k).current_mood() == Mood::Petted,
        k < 6 ==> p.focused().after_ticks(k).current_mood() == Mood::Petted,
{
    law_events_keep_pet_well_formed(p);
    lemma_quiet_ticks(p.stroked(), k);
    lemma_quiet_ticks(p.focused(), k);
}

/// Decay frames in `(f, f + k]`: multiples of the drift period.
pub open spec fn drifts_between(f: int, k: int) -> int {
    (f + k) / (DECAY_EVERY as int) - f / (DECAY_EVERY as int)
}

proof fn lemma_nap_grows_hungry(p: Pet, k: nat)
    requires
        p.wf(),
        p.asleep(),
        p.frame + k + 110 <= u64::MAX,
    ensures
        p.after_ticks(k).hunger >= 80 || (p.after_ticks(k).asleep() && p.after_ticks(k).hunger
            >= p.hunger + drifts_between(p.frame as int, k as int)),
    decreases k,
{
    if k > 0 {
        let k1 = (k - 1) as nat;
        lemma_nap_grows_hungry(p, k1);
        lemma_quiet_ticks(p, k1);
        let q = p.after_ticks(k1);
        law_events_keep_pet_well_formed(q);
        assert(p.after_ticks(k) == q.ticked());
        let f = q.frame + 1;
        assert(drifts_between(p.frame as int, k as int) == drifts_between(p.frame as int, k1 as int) + (
        if f % 16 == 0 { 1int } else { 0int }));
    }
}

/// A neglected nap ends: a napping pet left alone wakes once hunger reaches
/// 80, at the latest after sixteen ticks per missing point of hunger, and
/// stays awake from then on.
pub proof fn law_neglected_nap_ends(p: Pet, m: nat)
    requires
        p.wf(),
        p.asleep(),
        m >= 16 * (80 - p.hunger),
        p.frame + m + 110 <= u64::MAX,
    ensures
        !p.after_ticks(m).asleep(),
        p.after_ticks(m).hunger >= 80,
{
    let n = (16 * (80 - p.hunger)) as nat;
    lemma_nap_grows_hungry(p, n);
    assert(drifts_between(p.frame as int, n as int) == 80 - p.hunger);
    lemma_quiet_ticks(p, n);
    lemma_quiet_ticks(p.after_ticks(n), (m - n) as nat);
    lemma_after_ticks_add(p, n, (m - n) as nat);
}

proof fn lemma_after_ticks_add(p: Pet, a: nat, b: nat)
    ensures
        p.after_ticks(a).after_ticks(b) == p.after_ticks(a + b),
    decreases b,
{
    if b > 0 {
        lemma_after_ticks_add(p, a, (b - 1) as nat);
    }
}

/// What each host line does to the pet. A `hello` only picks the drawing
/// tier (a version of 2 or more draws) and leaves the pet itself alone; a
/// bell fills joy, feeds a little and excites; a click feeds and cheers up
/// for ten frames; a focus change cheers up for six frames; any other line
/// leaves the pet alone. A reaction never moves the clock.
pub proof fn law_host_line_effects(p: Pet, s: Seq<char>)
    requires
        p.frame + 14 <= u64::MAX,
    ensures
        mentions(s, "\"hello\""@) ==> (p.answered(s) matches Some(q) && q == (Pet {
            tier2: api_version_of(s) >= 2,
            ..p
        })),
        mentions(s, "\"hello\""@) ==> (p.answered(s) matches Some(q) && q.hunger == p.hunger && q.joy
            == p.joy && q.frame == p.frame && q.current_mood() == p.current_mood()),
        !mentions(s, "\"hello\""@) && mentions(s, "\"bell\""@) ==> (p.answered(s) matches Some(q)
            && q.current_mood() == Mood::Excited && q.joy == 100 && q.hunger == (if p.hunger >= 15 {
            p.hunger - 15
        } else {
            0
        }) && !q.asleep() && q.frame == p.frame && q.tier2 == p.tier2),
        !mentions(s, "\"hello\""@) && !mentions(s, "\"bell\""@) && mentions(s, "\"widget_clicked\""@)
            ==> (p.answered(s) matches Some(q) && q.joy == (if p.joy + 12 > 100 {
            100
        } else {
            p.joy + 12
        }) && q.hunger == (if p.hunger >= 10 { p.hunger - 10 } else { 0 }) && q.pet_end == p.frame + 10
            && q.excite_end == p.excite_end && !q.asleep() && q.frame == p.frame && q.tier2 == p.tier2),
        !mentions(s, "\"hello\""@) && !mentions(s, "\"bell\""@) && !mentions(s, "\"widget_clicked\""@)
            && mentions(s, "\"focus_changed\""@) ==> (p.answered(s) matches Some(q) && q.joy == (if p.joy
            + 5 > 100 {
            100
        } else {
            p.joy + 5
        }) && q.hunger == p.hunger && q.pet_end == p.frame + 6 && q.excite_end == p.excite_end
            && !q.asleep() && q.frame == p.frame && q.tier2 == p.tier2),
        !mentions(s, "\"hello\""@) && !mentions(s, "\"bell\""@) && !mentions(s, "\"widget_clicked\""@)
            && !mentions(s, "\"focus_changed\""@) ==> p.answered(s) is None,
{
}

/// The signature depends on nothing but what the host shows: on a drawing
/// host the mood, the gauge levels, the blink, the offset and the overlay
/// phase; on a text host the mood and the lit cells of the two bars. Pets
/// that agree on these have the same signature, whatever their clocks,
/// timers or generators.
pub proof fn law_signature_depends_only_on_view(p1: Pet, p2: Pet)
    requires
        p1.tier2 == p2.tier2,
        p1.current_mood() == p2.current_mood(),
        p1.tier2 ==> p1.food_level() == p2.food_level() && p1.joy_level() == p2.joy_level()
            && p1.eyes_shut_for_blink() == p2.eyes_shut_for_blink() && p1.offset() == p2.offset()
            && p1.phase() == p2.phase(),
        !p1.tier2 ==> p1.card_food_cells() == p2.card_food_cells() && p1.card_joy_cells()
            == p2.card_joy_cells(),
    ensures
        p1.signature() == p2.signature(),
{
}

/// Where the parts of a text card stand: the mood word right after the
/// fixed opening, and the face and the two bars at fixed distances from the
/// end.
proof fn lemma_card_layout(m: Mood, h: u8, j: u8)
    ensures
        ({
            let c = card_text(m, h, j);
            let open = "{\"t\":\"update_widget\",\"widget\":{\"id\":\"pet\",\"title\":\"tama \u{b7} "@;
            &&& c.len() == open.len() + mood_word(m).len() + 58
            &&& c.subrange(open.len() as int, (open.len() + mood_word(m).len()) as int) == mood_word(m)
            &&& c.subrange(c.len() - 46, c.len() - 41) == mood_face(m)
            &&& c.subrange(c.len() - 33, c.len() - 23) == bar(sat_sub_u8(100, h))
            &&& c.subrange(c.len() - 15, c.len() - 5) == bar(j)
        }),
{
    reveal_strlit("\",\"lines\":[\"");
    reveal_strlit("\",\"food ");
    reveal_strlit("\",\"joy  ");
    reveal_strlit("\"]}}\n");
    law_bar_cells(sat_sub_u8(100, h));
    law_bar_cells(j);
    reveal_strlit("(^o^)");
    reveal_strlit("(^.^)");
    reveal_strlit("(-_-)");
    reveal_strlit("(o~o)");
    reveal_strlit("(T_T)");
    reveal_strlit("(^_^)");
    reveal_strlit("(._.)");
    let c = card_text(m, h, j);
    let open = "{\"t\":\"update_widget\",\"widget\":{\"id\":\"pet\",\"title\":\"tama \u{b7} "@;
    assert(c.subrange(open.len() as int, (open.len() + mood_word(m).len()) as int) =~= mood_word(m));
    assert(c.subrange(c.len() - 46, c.len() - 41) =~= mood_face(m));
    assert(c.subrange(c.len() - 33, c.len() - 23) =~= bar(sat_sub_u8(100, h)));
    assert(c.subrange(c.len() - 15, c.len() - 5) =~= bar(j));
}

/// A bar tells how many cells are lit.
proof fn lemma_bar_shows_cells(v1: u8, v2: u8)
    requires
        bar(v1) == bar(v2),
    ensures
        (if (v1 + 9) / 10 > 10 { 10 } else { (v1 + 9) / 10 }) == (if (v2 + 9) / 10 > 10 {
            10
        } else {
            (v2 + 9) / 10
        }),
{
    law_bar_cells(v1);
    law_bar_cells(v2);
    let c1: int = if (v1 + 9) / 10 > 10 { 10 } else { (v1 + 9) / 10 };
    let c2: int = if (v2 + 9) / 10 > 10 { 10 } else { (v2 + 9) / 10 };
    if c1 < c2 {
        assert(c1 < 10 && 10 * c1 >= v1 && 10 * c1 < v2);
        assert(bar(v2)[c1] == '#');
        assert(bar(v1)[c1] != '#');
        assert(bar(v1)[c1] == bar(v2)[c1]);
    } else if c2 < c1 {
        assert(c2 < 10 && 10 * c2 >= v2 && 10 * c2 < v1);
        assert(bar(v1)[c2] == '#');
        assert(bar(v2)[c2] != '#');
        assert(bar(v1)[c2] == bar(v2)[c2]);
    }
}

/// Each mood has its own title word, so the word tells the mood.
pub proof fn law_word_tells_mood(a: Mood, b: Mood)
    requires
        mood_word(a) == mood_word(b),
    ensures
        a == b,
{
    reveal_strlit("yay");
    reveal_strlit("<3");
    reveal_strlit("zzz");
    reveal_strlit("hungry");
    reveal_strlit("glum");
    reveal_strlit("happy");
    reveal_strlit("ok");
    assert("yay"@ =~= seq!['y', 'a', 'y']);
    assert("<3"@ =~= seq!['<', '3']);
    assert("zzz"@ =~= seq!['z', 'z', 'z']);
    assert("hungry"@ =~= seq!['h', 'u', 'n', 'g', 'r', 'y']);
    assert("glum"@ =~= seq!['g', 'l', 'u', 'm']);
    assert("happy"@ =~= seq!['h', 'a', 'p', 'p', 'y']);
    assert("ok"@ =~= seq!['o', 'k']);
    if a != b {
        assert(mood_word(a).len() != mood_word(b).len() || mood_word(a)[0] != mood_word(b)[0]);
    }
}

/// On a text host an unchanged card keeps its signature, so the timer sends
/// a card again only when it changed: two pets on text hosts show the same
/// card exactly when their signatures agree.
pub proof fn law_text_card_and_signature_agree(p1: Pet, p2: Pet)
    requires
        !p1.tier2,
        !p2.tier2,
    ensures
        p1.widget() == p2.widget() <==> p1.signature() == p2.signature(),
{
    if p1.widget() == p2.widget() {
        lemma_card_layout(p1.current_mood(), p1.hunger, p1.joy);
        lemma_card_layout(p2.current_mood(), p2.hunger, p2.joy);
        let c = p1.card();
        let open = "{\"t\":\"update_widget\",\"widget\":{\"id\":\"pet\",\"title\":\"tama \u{b7} "@;
        assert(mood_word(p1.current_mood()).len() == mood_word(p2.current_mood()).len());
        law_word_tells_mood(p1.current_mood(), p2.current_mood());
        lemma_bar_shows_cells(sat_sub_u8(100, p1.hunger), sat_sub_u8(100, p2.hunger));
        lemma_bar_shows_cells(p1.joy, p2.joy);
        law_signature_depends_only_on_view(p1, p2);
    }
    if p1.signature() == p2.signature() {
        law_signature_decides_widget(p1, p2);
    }
}

/// A line without the `"api_version"` key reads as version zero, so such a
/// host gets the text card.
pub proof fn law_missing_key_reads_zero(s: Seq<char>)
    requires
        forall|i: int| !occurs_at(s, api_version_key(), i),
    ensures
        api_version_of(s) == 0,
{
    lemma_find_none(s, api_version_key(), 0);
}

proof fn lemma_find_none(s: Seq<char>, pat: Seq<char>, i: int)
    requires
        forall|k: int| !occurs_at(s, pat, k),
    ensures
        find_from(s, pat, i) is None,
    decreases s.len() + 1 - i,
{
    if !(i < 0 || i + pat.len() > s.len()) {
        lemma_find_none(s, pat, i + 1);
    }
}

/// A line that carries a tag is never blank, so a tagged event is never
/// dropped as an empty line.
pub proof fn law_tagged_line_is_not_blank(s: Seq<char>, tag: Seq<char>)
    requires
        mentions(s, tag),
        tag.len() > 0,
        tag[0] == '"',
    ensures
        !blank(s),
{
    let i = find_from(s, tag, 0)->0;
    lemma_found_occurs(s, tag, 0);
    assert(s.subrange(i, i + tag.len())[0] == s[i]);
}

proof fn lemma_found_occurs(s: Seq<char>, pat: Seq<char>, i: int)
    requires
        find_from(s, pat, i) is Some,
    ensures
        occurs_at(s, pat, find_from(s, pat, i)->0),
    decreases s.len() + 1 - i,
{
    if !(i < 0 || i + pat.len() > s.len()) && !occurs_at(s, pat, i) {
        lemma_found_occurs(s, pat, i + 1);
    }
}

/// How a tick moves the stats: off the drift frames they stay; on a drift
/// frame a napping pet gains a point of hunger and of joy, and an awake pet
/// gains two points of hunger and loses a point of joy, two once hungry
/// (hunger 80 or more), all within 0..=100.
pub proof fn law_tick_stats(p: Pet)
    requires
        p.hunger <= 100,
        p.joy <= 100,
        p.frame + 110 <= u64::MAX,
    ensures
        ({
            let q = p.ticked();
            let woke_at = Pet { frame: (p.frame + 1) as u64, ..p };
            let nh: int = if p.hunger + 2 > 100 { 100 } else { p.hunger + 2 };
            &&& (p.frame + 1) % 16 != 0 ==> q.hunger == p.hunger && q.joy == p.joy
            &&& (p.frame + 1) % 16 == 0 && woke_at.asleep() ==> q.hunger == (if p.hunger + 1 > 100 {
                100
            } else {
                p.hunger + 1
            }) && q.joy == (if p.joy + 1 > 100 { 100 } else { p.joy + 1 })
            &&& (p.frame + 1) % 16 == 0 && !woke_at.asleep() ==> q.hunger == nh && q.joy == (if nh >= 80 {
                if p.joy >= 2 { p.joy - 2 } else { 0 }
            } else {
                if p.joy >= 1 { p.joy - 1 } else { 0 }
            })
        }),
{
}

/// The mood's order of precedence: a bell reaction beats everything, then a
/// focus or click reaction, then a nap, then hunger (78 or more), then
/// sadness (joy 25 or less), then happiness (joy 68 or more); otherwise
/// neutral.
pub proof fn law_mood_precedence(p: Pet)
    ensures
        p.current_mood() == Mood::Excited <==> p.frame < p.excite_end,
        p.current_mood() == Mood::Petted <==> p.frame >= p.excite_end && p.frame < p.pet_end,
        p.current_mood() == Mood::Sleepy <==> p.frame >= p.excite_end && p.frame >= p.pet_end
            && p.asleep(),
        p.current_mood() == Mood::Hungry <==> p.frame >= p.excite_end && p.frame >= p.pet_end
            && !p.asleep() && p.hunger >= 78,
        p.current_mood() == Mood::Sad <==> p.frame >= p.excite_end && p.frame >= p.pet_end
            && !p.asleep() && p.hunger < 78 && p.joy <= 25,
        p.current_mood() == Mood::Happy <==> p.frame >= p.excite_end && p.frame >= p.pet_end
            && !p.asleep() && p.hunger < 78 && p.joy >= 68,
        p.asleep() <==> (p.frame > p.idle_since + 460 && p.hunger < 80 && p.joy > 25),
{
}

} // verus!
