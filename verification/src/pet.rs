use vstd::prelude::*;

use crate::mood::{mood_rank, Mood};

verus! {

/// Ticks between two drifts of the pet's stats (about two seconds).
pub const DECAY_EVERY: u64 = 16;

/// Ticks without any interaction after which the pet naps (about a minute).
pub const NAP_AFTER: u64 = 460;

/// Seed used when the clock cannot be read.
pub const FALLBACK_SEED: u64 = 0x9e3779b97f4a7c15;

/// The pet's whole state.
///
/// Vertical offsets and drawing coordinates are kept in ten-thousandths of
/// the canvas height, so `-650` stands for `-0.0650`.
pub struct Pet {
    /// 0..=100, higher is hungrier (the food gauge shows `100 - hunger`).
    pub hunger: u8,
    /// 0..=100.
    pub joy: u8,
    pub frame: u64,
    pub blink_until: u64,
    pub next_blink: u64,
    /// Next frame an idle hop may start.
    pub action_at: u64,
    /// Frame the current idle hop ends (0 = none).
    pub action_end: u64,
    /// Frame a bell's excited reaction ends.
    pub excite_end: u64,
    /// Frame a focus or click reaction ends.
    pub pet_end: u64,
    /// Last frame with an interaction, for the nap timer.
    pub idle_since: u64,
    pub tier2: bool,
    pub rng: u64,
    pub last_sig: u64,
}

/// One step of the xorshift64 generator.
pub open spec fn xorshift(x: u64) -> u64 {
    let a = x ^ (x << 13u64);
    let b = a ^ (a >> 7u64);
    b ^ (b << 17u64)
}

/// `lo` plus the generator's next output reduced modulo the span, with the
/// generator state that follows.
pub open spec fn roll(rng: u64, lo: u64, hi: u64) -> (u64, u64) {
    let span: u64 = if hi - lo >= 1 { (hi - lo) as u64 } else { 1 };
    ((lo + xorshift(rng) % span) as u64, xorshift(rng))
}

pub open spec fn sat_sub_u8(a: u8, b: u8) -> u8 {
    if a >= b { (a - b) as u8 } else { 0 }
}

pub open spec fn cap100(v: int) -> u8 {
    if v > 100 { 100 } else { v as u8 }
}

/// Height of an idle hop with `remaining` frames left, in ten-thousandths
/// (up is negative): a quick rise and a soft landing.
pub open spec fn hop_height(remaining: u64) -> int {
    if remaining == 6 { -200 }
    else if remaining == 5 { -500 }
    else if remaining == 4 { -600 }
    else if remaining == 3 { -500 }
    else if remaining == 2 { -300 }
    else if remaining == 1 { -120 }
    else { 0 }
}

impl Pet {
    /// The stats stay on their gauges, the generator never sits at zero,
    /// and a running idle hop has not passed its end.
    pub open spec fn wf(self) -> bool {
        &&& self.hunger <= 100
        &&& self.joy <= 100
        &&& self.rng != 0
        &&& self.hop_in_bounds()
    }

    /// No idle hop is running, or the frame has not reached its end, so the
    /// hop is within its last six frames.
    pub open spec fn hop_in_bounds(self) -> bool {
        self.action_end == 0 || self.frame < self.action_end
    }

    /// The offset can be computed: a reaction is running, or no idle hop has
    /// passed its end (counting down to a finished hop would underflow).
    pub open spec fn offset_defined(self) -> bool {
        ||| self.frame < self.excite_end
        ||| self.frame < self.pet_end
        ||| self.action_end == 0
        ||| self.frame <= self.action_end
    }

    /// Lit cells of the text card's food bar: started tenths of `100 - hunger`.
    pub open spec fn card_food_cells(self) -> u8 {
        let c: int = (sat_sub_u8(100, self.hunger) + 9) / 10;
        if c > 10 { 10 } else { c as u8 }
    }

    /// Lit cells of the text card's joy bar: started tenths of `joy`, at most ten.
    pub open spec fn card_joy_cells(self) -> u8 {
        let c: int = (self.joy + 9) / 10;
        if c > 10 { 10 } else { c as u8 }
    }

    pub open spec fn asleep(self) -> bool {
        let idle: u64 = if self.frame >= self.idle_since { (self.frame - self.idle_since) as u64 } else { 0 };
        &&& idle > NAP_AFTER
        &&& self.hunger < 80
        &&& self.joy > 25
    }

    pub open spec fn eyes_shut_for_blink(self) -> bool {
        self.frame <= self.blink_until
    }

    pub open spec fn current_mood(self) -> Mood {
        if self.frame < self.excite_end {
            Mood::Excited
        } else if self.frame < self.pet_end {
            Mood::Petted
        } else if self.asleep() {
            Mood::Sleepy
        } else if self.hunger >= 78 {
            Mood::Hungry
        } else if self.joy <= 25 {
            Mood::Sad
        } else if self.joy >= 68 {
            Mood::Happy
        } else {
            Mood::Neutral
        }
    }

    /// Food gauge: `100 - hunger` rounded to tenths, at most ten segments.
    pub open spec fn food_level(self) -> u8 {
        let food: int = if self.hunger <= 100 { 100 - self.hunger } else { 0 };
        let f: int = (food + 5) / 10;
        if f > 10 { 10 } else { f as u8 }
    }

    /// Joy gauge: `joy` rounded to tenths, at most ten segments.
    pub open spec fn joy_level(self) -> u8 {
        let f: int = (self.joy + 5) / 10;
        if f > 10 { 10 } else { f as u8 }
    }

    /// Vertical offset of the whole creature, in ten-thousandths (positive is
    /// down): reaction bounces, an idle hop, or slow breathing.
    pub open spec fn offset(self) -> int {
        let f = self.frame;
        if f < self.excite_end {
            hop_height((self.excite_end - f) as u64) * 13 / 10
        } else if f < self.pet_end {
            hop_height((self.pet_end - f) as u64) * 7 / 10
        } else if self.action_end != 0 && f <= self.action_end {
            hop_height((self.action_end - f) as u64)
        } else if self.asleep() {
            let k = (f / 8) % 4;
            if k == 1 || k == 3 { 120 } else if k == 2 { 220 } else { 0 }
        } else {
            let k = (f / 6) % 4;
            if k == 1 || k == 3 { 100 } else if k == 2 { 200 } else { 0 }
        }
    }

    /// Animation phase of the moving overlay (sparkles, hearts, z's).
    pub open spec fn phase(self) -> u64 {
        match self.current_mood() {
            Mood::Excited | Mood::Petted | Mood::Sleepy => (self.frame / 4) % 4,
            _ => 0,
        }
    }

    /// Signature of everything visible in a frame: the mood, then on a
    /// drawing host the gauge levels, the blink, the offset and the overlay
    /// phase, and on a text host the lit cells of the two bars.
    pub open spec fn signature(self) -> u64 {
        let rank = mood_rank(self.current_mood());
        if self.tier2 {
            let blink: u64 = if self.eyes_shut_for_blink() { 1 } else { 0 };
            rank | ((self.food_level() as u64) << 4u64) | ((self.joy_level() as u64) << 9u64) | (blink
                << 14u64) | (offset_code(self.offset()) << 16u64) | (self.phase() << 28u64)
        } else {
            rank | ((self.card_food_cells() as u64) << 4u64) | ((self.card_joy_cells() as u64) << 9u64)
        }
    }
}

/// The offset as it enters the signature: `(offset + 0.1) * 200`, truncated,
/// kept to ten bits.
pub open spec fn offset_code(dy: int) -> u64 {
    (((dy + 1000) / 50) as u64) & 0x3ffu64
}


impl Pet {
    /// Stats after one drift: a napping pet gets a little hungrier and a
    /// little happier; an awake one gets hungrier faster and loses joy, twice
    /// as fast once it is hungry.
    pub open spec fn drifted(self) -> Pet {
        if self.asleep() {
            Pet { hunger: cap100(self.hunger + 1), joy: cap100(self.joy + 1), ..self }
        } else {
            let h = cap100(self.hunger + 2);
            let j1 = sat_sub_u8(self.joy, 1);
            let j2 = if h >= 80 { sat_sub_u8(j1, 1) } else { j1 };
            Pet { hunger: h, joy: j2, ..self }
        }
    }

    /// Blink and idle-hop scheduling of an awake pet at its current frame.
    pub open spec fn scheduled(self) -> Pet {
        let f = self.frame;
        let b = if f >= self.next_blink {
            let (r, g) = roll(self.rng, 18, 46);
            Pet { blink_until: (f + 1) as u64, next_blink: (f + r) as u64, rng: g, ..self }
        } else {
            self
        };
        if b.action_end == 0 && f >= b.action_at && f >= b.excite_end && f >= b.pet_end {
            let (r, g) = roll(b.rng, 48, 110);
            Pet { action_end: (f + 6) as u64, action_at: (f + r) as u64, rng: g, ..b }
        } else {
            b
        }
    }

    /// The idle hop ends once its end frame is reached.
    pub open spec fn hop_settled(self) -> Pet {
        if self.action_end != 0 && self.frame >= self.action_end {
            Pet { action_end: 0, ..self }
        } else {
            self
        }
    }

    /// The state one tick later: the stats drift, a finished hop ends, and
    /// an awake pet schedules its blinks and hops.
    pub open spec fn ticked(self) -> Pet {
        let f = (self.frame + 1) as u64;
        let p0 = Pet { frame: f, ..self };
        let p1 = if f % DECAY_EVERY == 0 { p0.drifted() } else { p0 };
        let p2 = p1.hop_settled();
        if p2.asleep() { p2 } else { p2.scheduled() }
    }

    /// The state `n` ticks later.
    pub open spec fn after_ticks(self, n: nat) -> Pet
        decreases n,
    {
        if n == 0 {
            self
        } else {
            self.after_ticks((n - 1) as nat).ticked()
        }
    }

    /// A tick cannot overflow: room for the frame counter and its schedules,
    /// and for the stats on a drift.
    pub open spec fn can_tick(self) -> bool {
        let p0 = Pet { frame: (self.frame + 1) as u64, ..self };
        &&& self.frame + 110 <= u64::MAX
        &&& p0.frame % DECAY_EVERY == 0 ==> if p0.asleep() { self.joy < 255 } else { self.hunger <= 253 }
    }

    /// The state after a terminal bell.
    pub open spec fn belled(self) -> Pet {
        Pet {
            joy: 100,
            hunger: sat_sub_u8(self.hunger, 15),
            excite_end: (self.frame + 14) as u64,
            idle_since: self.frame,
            ..self
        }
    }

    /// The state after the pane focus changed.
    pub open spec fn focused(self) -> Pet {
        Pet {
            joy: cap100(self.joy + 5),
            pet_end: (self.frame + 6) as u64,
            idle_since: self.frame,
            ..self
        }
    }

    /// The state after a click on the card.
    pub open spec fn stroked(self) -> Pet {
        Pet {
            joy: cap100(self.joy + 12),
            hunger: sat_sub_u8(self.hunger, 10),
            pet_end: (self.frame + 10) as u64,
            idle_since: self.frame,
            ..self
        }
    }
}

/// Height of a hop with `remaining` frames left in a hop of six, in
/// ten-thousandths of the canvas (up is negative).
pub fn hop_curve(remaining: u64) -> (h: i32)
    ensures
        h == hop_height(remaining),
{
    match remaining {
        6 => -200,
        5 => -500,
        4 => -600,
        3 => -500,
        2 => -300,
        1 => -120,
        _ => 0,
    }
}

impl Pet {
    /// A fresh pet. `clock_nanos` is the wall clock in nanoseconds, when it
    /// could be read; it seeds the generator, forced odd so it is never zero.
    pub fn new(clock_nanos: Option<u64>) -> (p: Pet)
        ensures
            p.hunger == 20,
            p.joy == 80,
            p.frame == 0,
            p.blink_until == 0,
            p.next_blink == 16,
            p.action_at == 40,
            p.action_end == 0,
            p.excite_end == 0,
            p.pet_end == 0,
            p.idle_since == 0,
            !p.tier2,
            p.rng == (match clock_nanos { Some(n) => n, None => FALLBACK_SEED }) | 1u64,
            p.last_sig == u64::MAX,
            p.wf(),
    {
        let seed = match clock_nanos {
            Some(n) => n,
            None => FALLBACK_SEED,
        };
        let rng = seed | 1;
        assert(rng != 0) by (bit_vector)
            requires rng == seed | 1u64;
        Pet {
            hunger: 20,
            joy: 80,
            frame: 0,
            blink_until: 0,
            next_blink: 16,
            action_at: 40,
            action_end: 0,
            excite_end: 0,
            pet_end: 0,
            idle_since: 0,
            tier2: false,
            rng,
            last_sig: u64::MAX,
        }
    }

    /// Advances the xorshift64 generator and returns its new state.
    pub fn rand(&mut self) -> (r: u64)
        ensures
            r == xorshift(old(self).rng),
            *final(self) == (Pet { rng: r, ..*old(self) }),
    {
        let mut x = self.rng;
        x = x ^ (x << 13u64);
        x = x ^ (x >> 7u64);
        x = x ^ (x << 17u64);
        self.rng = x;
        x
    }

    /// `lo` plus a random offset below `hi - lo` (just `lo` when the range is
    /// empty).
    pub fn rand_range(&mut self, lo: u64, hi: u64) -> (r: u64)
        requires
            lo <= hi,
        ensures
            (r, final(self).rng) == roll(old(self).rng, lo, hi),
            *final(self) == (Pet { rng: final(self).rng, ..*old(self) }),
            lo == hi ==> r == lo,
            lo < hi ==> lo <= r < hi,
    {
        let span = if hi - lo >= 1 { hi - lo } else { 1 };
        let x = self.rand();
        lo + x % span
    }

    pub fn sleeping(&self) -> (b: bool)
        ensures
            b == self.asleep(),
    {
        let idle = if self.frame >= self.idle_since { self.frame - self.idle_since } else { 0 };
        idle > NAP_AFTER && self.hunger < 80 && self.joy > 25
    }

    pub fn blinking(&self) -> (b: bool)
        ensures
            b == self.eyes_shut_for_blink(),
    {
        self.frame <= self.blink_until
    }

    pub fn mood(&self) -> (m: Mood)
        ensures
            m == self.current_mood(),
    {
        if self.frame < self.excite_end {
            Mood::Excited
        } else if self.frame < self.pet_end {
            Mood::Petted
        } else if self.sleeping() {
            Mood::Sleepy
        } else if self.hunger >= 78 {
            Mood::Hungry
        } else if self.joy <= 25 {
            Mood::Sad
        } else if self.joy >= 68 {
            Mood::Happy
        } else {
            Mood::Neutral
        }
    }

    pub fn food_fill(&self) -> (f: u8)
        ensures
            f == self.food_level(),
            f <= 10,
    {
        let food: u16 = if self.hunger <= 100 { 100 - self.hunger as u16 } else { 0 };
        let f = (food + 5) / 10;
        if f > 10 { 10 } else { f as u8 }
    }

    /// Lit cells of the text card's food bar.
    pub fn card_food_fill(&self) -> (c: u8)
        ensures
            c == self.card_food_cells(),
            c <= 10,
    {
        let food: u16 = if self.hunger <= 100 { 100 - self.hunger as u16 } else { 0 };
        let c = (food + 9) / 10;
        if c > 10 { 10 } else { c as u8 }
    }

    /// Lit cells of the text card's joy bar.
    pub fn card_joy_fill(&self) -> (c: u8)
        ensures
            c == self.card_joy_cells(),
            c <= 10,
    {
        let c = (self.joy as u16 + 9) / 10;
        if c > 10 { 10 } else { c as u8 }
    }

    pub fn joy_fill(&self) -> (f: u8)
        ensures
            f == self.joy_level(),
            f <= 10,
    {
        let f = (self.joy as u16 + 5) / 10;
        if f > 10 { 10 } else { f as u8 }
    }

    /// Vertical offset for the whole creature, in ten-thousandths of the
    /// canvas (positive is down): idle bob, an occasional hop, reaction
    /// bounces, and slow sleep breathing.
    pub fn bob(&self) -> (dy: i32)
        requires
            self.offset_defined(),
        ensures
            dy == self.offset(),
            -780 <= dy <= 220,
    {
        let f = self.frame;
        if f < self.excite_end {
            hop_curve(self.excite_end - f) * 13 / 10
        } else if f < self.pet_end {
            hop_curve(self.pet_end - f) * 7 / 10
        } else if self.action_end != 0 {
            hop_curve(self.action_end - f)
        } else if self.sleeping() {
            let k = (f / 8) % 4;
            if k == 1 || k == 3 { 120 } else if k == 2 { 220 } else { 0 }
        } else {
            let k = (f / 6) % 4;
            if k == 1 || k == 3 { 100 } else if k == 2 { 200 } else { 0 }
        }
    }

    /// Animation phase for moods with a moving overlay (sparkles, hearts,
    /// z's); zero for the others.
    pub fn overlay_phase(&self) -> (p: u64)
        ensures
            p == self.phase(),
            p < 4,
    {
        match self.mood() {
            Mood::Excited | Mood::Petted | Mood::Sleepy => (self.frame / 4) % 4,
            _ => 0,
        }
    }

    /// A compact signature of everything currently visible, used to skip a
    /// frame when nothing changed.
    pub fn sig(&self) -> (s: u64)
        requires
            self.tier2 ==> self.offset_defined(),
        ensures
            s == self.signature(),
    {
        let rank = self.mood().ord();
        if self.tier2 {
            let dy = self.bob();
            let bobb = ((dy + 1000) as u64 / 50) & 0x3ff;
            let blink: u64 = if self.blinking() { 1 } else { 0 };
            rank | ((self.food_fill() as u64) << 4u64) | ((self.joy_fill() as u64) << 9u64) | (blink
                << 14u64) | (bobb << 16u64) | (self.overlay_phase() << 28u64)
        } else {
            rank | ((self.card_food_fill() as u64) << 4u64) | ((self.card_joy_fill() as u64) << 9u64)
        }
    }

    /// Advances one tick: drifts the stats, schedules blinks and idle hops,
    /// and lets a napping pet sleep on.
    pub fn tick(&mut self)
        requires
            old(self).can_tick(),
        ensures
            *final(self) == old(self).ticked(),
    {
        self.frame = self.frame + 1;
        let f = self.frame;
        if f % DECAY_EVERY == 0 {
            if self.sleeping() {
                self.hunger = if self.hunger + 1 > 100 { 100 } else { self.hunger + 1 };
                self.joy = if self.joy + 1 > 100 { 100 } else { self.joy + 1 };
            } else {
                self.hunger = if self.hunger + 2 > 100 { 100 } else { self.hunger + 2 };
                let mut j = if self.joy >= 1 { self.joy - 1 } else { 0 };
                if self.hunger >= 80 {
                    j = if j >= 1 { j - 1 } else { 0 };
                }
                self.joy = j;
            }
        }
        if self.action_end != 0 && f >= self.action_end {
            self.action_end = 0;
        }
        if self.sleeping() {
            return;
        }
        if f >= self.next_blink {
            self.blink_until = f + 1;
            let r = self.rand_range(18, 46);
            self.next_blink = f + r;
        }
        if self.action_end == 0 && f >= self.action_at && f >= self.excite_end && f >= self.pet_end {
            self.action_end = f + 6;
            let r = self.rand_range(48, 110);
            self.action_at = f + r;
        }
    }

    /// A terminal bell startles the pet into an excited bounce.
    pub fn on_bell(&mut self)
        requires
            old(self).frame + 14 <= u64::MAX,
        ensures
            *final(self) == old(self).belled(),
    {
        self.joy = 100;
        self.hunger = if self.hunger >= 15 { self.hunger - 15 } else { 0 };
        self.excite_end = self.frame + 14;
        self.idle_since = self.frame;
    }

    /// A pane focus change cheers the pet up.
    pub fn on_focus(&mut self)
        requires
            old(self).frame + 6 <= u64::MAX,
            old(self).joy + 5 <= u8::MAX,
        ensures
            *final(self) == old(self).focused(),
    {
        self.joy = if self.joy + 5 > 100 { 100 } else { self.joy + 5 };
        self.pet_end = self.frame + 6;
        self.idle_since = self.frame;
    }

    /// A click on the card pets and feeds the pet.
    pub fn on_pet(&mut self)
        requires
            old(self).frame + 10 <= u64::MAX,
            old(self).joy + 12 <= u8::MAX,
        ensures
            *final(self) == old(self).stroked(),
    {
        self.joy = if self.joy + 12 > 100 { 100 } else { self.joy + 12 };
        self.hunger = if self.hunger >= 10 { self.hunger - 10 } else { 0 };
        self.pet_end = self.frame + 10;
        self.idle_since = self.frame;
    }
}

} // verus!
