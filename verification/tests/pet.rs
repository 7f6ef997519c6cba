use lib::mood::Mood;
use lib::pet::{hop_curve, Pet, FALLBACK_SEED};

fn pet_at(frame: u64) -> Pet {
    let mut p = Pet::new(Some(42));
    p.frame = frame;
    p.blink_until = 0;
    p.next_blink = u64::MAX - 200;
    p.action_at = u64::MAX - 200;
    p.idle_since = frame;
    p
}

#[test]
fn new_pet_starts_content() {
    let p = Pet::new(Some(42));
    assert_eq!((p.hunger, p.joy, p.frame), (20, 80, 0));
    assert_eq!((p.next_blink, p.action_at, p.action_end), (16, 40, 0));
    assert!(!p.tier2);
    assert_eq!(p.last_sig, u64::MAX);
    assert_eq!(p.rng, 43);
    assert_eq!(p.mood(), Mood::Happy);
}

#[test]
fn seed_is_forced_odd() {
    assert_eq!(Pet::new(Some(0)).rng, 1);
    assert_eq!(Pet::new(Some(7)).rng, 7);
    assert_eq!(Pet::new(None).rng, FALLBACK_SEED | 1);
    assert_eq!(Pet::new(None).rng, 11400714819323198485);
}

#[test]
fn rand_is_xorshift64() {
    let mut p = Pet::new(Some(42));
    assert_eq!(p.rand(), 46537075435);
    assert_eq!(p.rng, 46537075435);
    assert_eq!(p.rand(), 12685210767805585150);
}

#[test]
fn rand_range_stays_in_range_and_advances() {
    let mut p = Pet::new(Some(42));
    assert_eq!(p.rand_range(18, 46), 29);
    assert_eq!(p.rng, 46537075435);
    assert_eq!(p.rand_range(5, 5), 5);
    assert_eq!(p.rng, 12685210767805585150);
    for _ in 0..1000 {
        let r = p.rand_range(48, 110);
        assert!((48..110).contains(&r));
        assert_ne!(p.rng, 0);
    }
}

#[test]
fn fills_round_to_tenths() {
    let mut p = Pet::new(Some(1));
    p.hunger = 0;
    p.joy = 0;
    assert_eq!((p.food_fill(), p.joy_fill()), (10, 0));
    p.hunger = 15;
    p.joy = 15;
    assert_eq!((p.food_fill(), p.joy_fill()), (9, 2));
    p.hunger = 100;
    p.joy = 100;
    assert_eq!((p.food_fill(), p.joy_fill()), (0, 10));
    p.hunger = 200;
    p.joy = 255;
    assert_eq!((p.food_fill(), p.joy_fill()), (0, 10));
}

#[test]
fn mood_precedence() {
    let mut p = pet_at(1000);
    p.idle_since = 0;
    p.hunger = 10;
    p.joy = 90;
    assert!(p.sleeping());
    assert_eq!(p.mood(), Mood::Sleepy);
    p.excite_end = 1001;
    p.pet_end = 1001;
    assert_eq!(p.mood(), Mood::Excited);
    p.excite_end = 0;
    assert_eq!(p.mood(), Mood::Petted);
    p.pet_end = 0;
    p.hunger = 80;
    assert!(!p.sleeping());
    assert_eq!(p.mood(), Mood::Hungry);
    p.hunger = 77;
    p.joy = 25;
    assert_eq!(p.mood(), Mood::Sad);
    p.joy = 68;
    p.idle_since = 1000;
    assert_eq!(p.mood(), Mood::Happy);
    p.joy = 67;
    assert_eq!(p.mood(), Mood::Neutral);
}

#[test]
fn sleeping_needs_a_long_quiet_time() {
    let mut p = pet_at(1000);
    p.idle_since = 540;
    assert!(!p.sleeping());
    p.idle_since = 539;
    assert!(p.sleeping());
    p.idle_since = 2000;
    assert!(!p.sleeping());
}

#[test]
fn blink_lasts_through_blink_until() {
    let mut p = pet_at(50);
    p.blink_until = 50;
    assert!(p.blinking());
    p.blink_until = 49;
    assert!(!p.blinking());
}

#[test]
fn hop_curve_rises_and_lands() {
    let heights: Vec<i32> = (0..8).map(hop_curve).collect();
    assert_eq!(heights, vec![0, -120, -300, -500, -600, -500, -200, 0]);
    assert_eq!(hop_curve(u64::MAX), 0);
}

/// The same offset computed in `f32`, in canvas units.
fn float_bob(p: &Pet) -> f32 {
    fn hop(remaining: u64) -> f32 {
        match remaining {
            6 => -0.020,
            5 => -0.050,
            4 => -0.060,
            3 => -0.050,
            2 => -0.030,
            1 => -0.012,
            _ => 0.0,
        }
    }
    let f = p.frame;
    if f < p.excite_end {
        hop(p.excite_end - f) * 1.3
    } else if f < p.pet_end {
        hop(p.pet_end - f) * 0.7
    } else if p.action_end != 0 {
        hop(p.action_end - f)
    } else if p.sleeping() {
        [0.0, 0.012, 0.022, 0.012][((f / 8) % 4) as usize]
    } else {
        [0.0, 0.010, 0.020, 0.010][((f / 6) % 4) as usize]
    }
}

#[test]
fn bob_matches_the_float_offsets() {
    let mut cases = Vec::new();
    for k in 0..10u64 {
        let mut p = pet_at(1000 + k);
        p.excite_end = 1006;
        cases.push(p);
        let mut p = pet_at(1000 + k);
        p.pet_end = 1006;
        cases.push(p);
        if k <= 6 {
            let mut p = pet_at(1000 + k);
            p.action_end = 1006;
            cases.push(p);
            let mut p = pet_at(1000 + k);
            p.action_end = 1006;
            p.idle_since = 0;
            cases.push(p);
        }
    }
    for f in 0..64u64 {
        let mut p = pet_at(1000 + f);
        cases.push(p.clone_state());
        p.idle_since = 0;
        cases.push(p);
    }
    for p in &cases {
        let dy = p.bob();
        let fl = float_bob(p);
        assert_eq!(format!("{:.4}", dy as f64 / 10000.0), format!("{:.4}", fl), "frame {}", p.frame);
        let code = (((fl + 0.1) * 200.0) as u64) & 0x3ff;
        assert_eq!(code, ((dy + 1000) as u64 / 50) & 0x3ff);
    }
}

trait CloneState {
    fn clone_state(&self) -> Pet;
}

impl CloneState for Pet {
    fn clone_state(&self) -> Pet {
        Pet {
            hunger: self.hunger,
            joy: self.joy,
            frame: self.frame,
            blink_until: self.blink_until,
            next_blink: self.next_blink,
            action_at: self.action_at,
            action_end: self.action_end,
            excite_end: self.excite_end,
            pet_end: self.pet_end,
            idle_since: self.idle_since,
            tier2: self.tier2,
            rng: self.rng,
            last_sig: self.last_sig,
        }
    }
}

#[test]
fn overlay_phase_only_for_animated_moods() {
    let mut p = pet_at(13);
    p.excite_end = 20;
    assert_eq!(p.overlay_phase(), 3);
    p.excite_end = 0;
    p.pet_end = 20;
    assert_eq!(p.overlay_phase(), 3);
    p.pet_end = 0;
    assert_eq!(p.mood(), Mood::Happy);
    assert_eq!(p.overlay_phase(), 0);
}

#[test]
fn sig_packs_the_visible_state() {
    let p = Pet::new(Some(42));
    assert_eq!(p.sig(), 5 | (8 << 4) | (8 << 9));
    let mut q = Pet::new(Some(42));
    q.tier2 = true;
    assert_eq!(q.sig(), 5 | (8 << 4) | (8 << 9) | (1 << 14) | (20 << 16));
    assert_eq!(q.sig(), 1331333);
}

#[test]
fn tick_drifts_stats_every_sixteen_ticks() {
    let mut p = Pet::new(Some(42));
    for _ in 0..15 {
        p.tick();
    }
    assert_eq!((p.hunger, p.joy), (20, 80));
    p.tick();
    assert_eq!(p.frame, 16);
    assert_eq!((p.hunger, p.joy), (22, 79));
    // the blink scheduled for frame 16 happened
    assert_eq!(p.blink_until, 17);
    assert!(p.next_blink >= 16 + 18 && p.next_blink < 16 + 46);
}

#[test]
fn hungry_pet_loses_joy_twice_as_fast() {
    let mut p = pet_at(15);
    p.hunger = 78;
    p.joy = 50;
    p.tick();
    assert_eq!((p.hunger, p.joy), (80, 48));
}

#[test]
fn napping_pet_gains_joy_and_lies_still() {
    let mut p = pet_at(1023);
    p.idle_since = 0;
    p.hunger = 50;
    p.joy = 50;
    p.next_blink = 0;
    p.action_at = 0;
    let rng = p.rng;
    p.tick();
    assert_eq!(p.frame, 1024);
    assert_eq!((p.hunger, p.joy), (51, 51));
    assert_eq!(p.rng, rng);
    assert_eq!(p.blink_until, 0);
    assert_eq!(p.action_end, 0);
}

#[test]
fn idle_hop_is_scheduled_and_cleared() {
    let mut p = pet_at(39);
    p.action_at = 40;
    p.tick();
    assert_eq!(p.action_end, 46);
    assert!(p.action_at >= 40 + 48 && p.action_at < 40 + 110);
    for _ in 0..6 {
        p.tick();
    }
    assert_eq!(p.frame, 46);
    assert_eq!(p.action_end, 0);
}

#[test]
fn bell_excites_and_wakes() {
    let mut p = pet_at(1000);
    p.idle_since = 0;
    p.hunger = 10;
    p.joy = 40;
    assert!(p.sleeping());
    p.on_bell();
    assert!(!p.sleeping());
    assert_eq!(p.mood(), Mood::Excited);
    assert_eq!((p.hunger, p.joy, p.excite_end, p.idle_since), (0, 100, 1014, 1000));
}

#[test]
fn focus_and_click_cheer_up() {
    let mut p = pet_at(1000);
    p.idle_since = 0;
    p.hunger = 60;
    p.joy = 97;
    p.on_focus();
    assert_eq!(p.mood(), Mood::Petted);
    assert_eq!((p.joy, p.pet_end, p.idle_since), (100, 1006, 1000));
    p.on_pet();
    assert_eq!((p.hunger, p.joy, p.pet_end), (50, 100, 1010));
    assert_eq!(p.mood(), Mood::Petted);
}

#[test]
fn equal_signatures_draw_equal_canvases() {
    // two different pets that look the same on a drawing host
    let mut a = pet_at(1000);
    let mut b = pet_at(1000);
    a.tier2 = true;
    b.tier2 = true;
    a.hunger = 31;
    b.hunger = 29;
    a.rng = 3;
    b.rng = 99;
    assert_eq!(a.sig(), b.sig());
    assert_eq!(a.widget_line(), b.widget_line());
}

#[test]
fn text_card_signature_follows_the_bars() {
    // the text card's bars count started tenths, and so does its signature
    let mut a = pet_at(1000);
    let mut b = pet_at(1000);
    a.joy = 70;
    b.joy = 71;
    assert_ne!(a.sig(), b.sig());
    assert_ne!(a.widget_line(), b.widget_line());
    b.joy = 62;
    a.joy = 61;
    assert_eq!(a.sig(), b.sig());
    assert_eq!(a.widget_line(), b.widget_line());
    assert_eq!((a.card_joy_fill(), a.card_food_fill()), (7, 8));
}

#[test]
fn fresh_pet_after_144_and_160_ticks_cards_differ() {
    let mut a = Pet::new(Some(42));
    for _ in 0..144 {
        a.tick();
    }
    let mut b = Pet::new(Some(42));
    for _ in 0..160 {
        b.tick();
    }
    assert_ne!(a.widget_line(), b.widget_line());
    assert_ne!(a.sig(), b.sig());
}

#[test]
fn nap_clears_a_finished_hop_and_breathes() {
    let mut p = pet_at(1000);
    p.idle_since = 0;
    p.hunger = 50;
    p.joy = 50;
    p.action_end = 1001;
    p.tick();
    assert!(p.sleeping());
    assert_eq!(p.action_end, 0);
    // frame 1001: (1001 / 8) % 4 == 1, the first breath
    assert_eq!(p.bob(), 120);
}

#[test]
fn petting_lasts_ten_frames() {
    let mut p = pet_at(1000);
    p.on_pet();
    for _ in 0..9 {
        p.tick();
        assert_eq!(p.mood(), Mood::Petted);
    }
    p.tick();
    assert_ne!(p.mood(), Mood::Petted);
}

#[test]
fn neglected_nap_ends_by_hunger_eighty() {
    let mut p = pet_at(1000);
    p.idle_since = 0;
    p.hunger = 70;
    p.joy = 50;
    assert!(p.sleeping());
    for _ in 0..16 * 10 {
        p.tick();
    }
    assert!(!p.sleeping());
    assert!(p.hunger >= 80);
    for _ in 0..500 {
        p.tick();
        assert!(!p.sleeping());
    }
}

#[test]
fn hop_at_its_end_frame_rests_at_zero() {
    let mut p = pet_at(1006);
    p.action_end = 1006;
    assert_eq!(p.bob(), 0);
    p.idle_since = 0;
    assert!(p.sleeping());
    assert_eq!(p.bob(), 0);
}
