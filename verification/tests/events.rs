use lib::events::Reply;
use lib::mood::Mood;
use lib::pet::Pet;

fn redraw(r: Reply) -> String {
    match r {
        Reply::Redraw(s) => s,
        Reply::Quit => panic!("unexpected quit"),
        Reply::Ignore => panic!("unexpected ignore"),
    }
}

#[test]
fn hello_picks_the_drawing_tier() {
    let mut p = Pet::new(Some(42));
    let line = redraw(p.handle_line("{\"t\":\"hello\",\"api_version\":2}"));
    assert!(p.tier2);
    assert!(line.contains("\"canvas_h\":150"));
    assert_eq!(p.last_sig, p.sig());
    let line = redraw(p.handle_line("{\"t\":\"hello\",\"api_version\":1}"));
    assert!(!p.tier2);
    assert!(line.contains("\"lines\":[\"(^_^)\""));
    redraw(p.handle_line("{\"t\":\"hello\"}"));
    assert!(!p.tier2);
}

#[test]
fn host_events_reach_the_pet() {
    let mut p = Pet::new(Some(42));
    let line = redraw(p.handle_line("{\"t\":\"bell\"}"));
    assert_eq!(p.mood(), Mood::Excited);
    assert!(line.contains("tama \u{b7} yay"));
    let mut q = Pet::new(Some(42));
    redraw(q.handle_line("{\"t\":\"widget_clicked\",\"id\":\"pet\"}"));
    assert_eq!((q.hunger, q.joy, q.pet_end), (10, 92, 10));
    let mut r = Pet::new(Some(42));
    redraw(r.handle_line("{\"t\":\"focus_changed\"}"));
    assert_eq!((r.joy, r.pet_end), (85, 6));
}

#[test]
fn other_lines_are_ignored_or_end_the_plugin() {
    let mut p = Pet::new(Some(42));
    assert!(matches!(p.handle_line(""), Reply::Ignore));
    assert!(matches!(p.handle_line("{\"t\":\"resize\"}"), Reply::Ignore));
    assert_eq!(p.last_sig, u64::MAX);
    assert!(matches!(p.handle_line("{\"t\":\"shutdown\"}"), Reply::Quit));
    // a shutdown wins over any other tag on the same line
    assert!(matches!(p.handle_line("{\"t\":\"shutdown\",\"why\":\"bell\"}"), Reply::Quit));
    assert_eq!(p.joy, 80);
}

#[test]
fn timer_sends_only_changed_frames() {
    let mut p = Pet::new(Some(42));
    p.tier2 = true;
    let mut sent = 0;
    let mut last: Option<String> = None;
    for _ in 0..200 {
        match p.on_timer() {
            Some(line) => {
                assert_ne!(Some(&line), last.as_ref());
                last = Some(line);
                sent += 1;
            }
            None => {
                assert_eq!(Some(p.widget_line()), last);
            }
        }
    }
    assert_eq!(p.frame, 200);
    assert!(sent > 0 && sent < 200);
}

#[test]
fn text_host_timer_never_leaves_stale_bars() {
    let mut p = Pet::new(Some(42));
    let mut last: Option<String> = None;
    for _ in 0..3000 {
        match p.on_timer() {
            Some(line) => last = Some(line),
            None => assert_eq!(Some(p.widget_line()), last),
        }
    }
}

#[test]
fn timer_first_frame_is_always_sent() {
    let mut p = Pet::new(Some(42));
    let line = p.on_timer().expect("a fresh pet has drawn nothing yet");
    assert_eq!(line, p.widget_line());
    assert_eq!(p.last_sig, p.sig());
}

#[test]
fn blank_lines_are_ignored_and_padding_is_harmless() {
    let mut p = Pet::new(Some(42));
    assert!(matches!(p.handle_line("   \t\r"), Reply::Ignore));
    assert!(matches!(p.handle_line("\u{3000}\u{a0}"), Reply::Ignore));
    let line = redraw(p.handle_line("  {\"t\":\"hello\",\"api_version\":3}\r\n"));
    assert!(p.tier2);
    assert!(line.starts_with("{\"t\":\"update_widget\""));
}
