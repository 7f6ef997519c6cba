use vstd::prelude::*;

use crate::handshake::{api_version_of, find, find_from};
use crate::pet::Pet;
use crate::text::chars_of;

verus! {

/// What the plugin does after a host line or a timer tick.
pub enum Reply {
    /// Stop: the host asked the plugin to shut down.
    Quit,
    /// Nothing to send.
    Ignore,
    /// Send this widget update.
    Redraw(String),
}

/// Unicode white space, as `char::is_whitespace` and `str::trim` know it.
pub open spec fn is_space(c: char) -> bool {
    ||| '\u{9}' <= c <= '\u{d}'
    ||| c == ' '
    ||| c == '\u{85}'
    ||| c == '\u{a0}'
    ||| c == '\u{1680}'
    ||| '\u{2000}' <= c <= '\u{200a}'
    ||| c == '\u{2028}'
    ||| c == '\u{2029}'
    ||| c == '\u{202f}'
    ||| c == '\u{205f}'
    ||| c == '\u{3000}'
}

/// A line with nothing but white space (or nothing at all).
pub open spec fn blank(s: Seq<char>) -> bool {
    forall|i: int| 0 <= i < s.len() ==> is_space(#[trigger] s[i])
}

fn is_space_exec(c: char) -> (b: bool)
    ensures
        b == is_space(c),
{
    ('\u{9}' <= c && c <= '\u{d}') || c == ' ' || c == '\u{85}' || c == '\u{a0}' || c == '\u{1680}'
        || ('\u{2000}' <= c && c <= '\u{200a}') || c == '\u{2028}' || c == '\u{2029}' || c
        == '\u{202f}' || c == '\u{205f}' || c == '\u{3000}'
}

fn blank_exec(s: &Vec<char>) -> (b: bool)
    ensures
        b == blank(s@),
{
    let mut i: usize = 0;
    while i < s.len()
        invariant
            i <= s@.len(),
            forall|k: int| 0 <= k < i ==> is_space(#[trigger] s@[k]),
        decreases s.len() - i,
    {
        if !is_space_exec(s[i]) {
            return false;
        }
        i = i + 1;
    }
    true
}

/// `pat` occurs somewhere in `s`.
pub open spec fn mentions(s: Seq<char>, pat: Seq<char>) -> bool {
    find_from(s, pat, 0) is Some
}

impl Pet {
    /// The pet after a (non-empty, non-shutdown) host line, or none when the
    /// line is not an event the pet reacts to. The event type is recognized
    /// by its quoted tag anywhere in the line, checked in this order.
    pub open spec fn answered(self, s: Seq<char>) -> Option<Pet> {
        if mentions(s, "\"hello\""@) {
            Some(Pet { tier2: api_version_of(s) >= 2, ..self })
        } else if mentions(s, "\"bell\""@) {
            Some(self.belled())
        } else if mentions(s, "\"widget_clicked\""@) {
            Some(self.stroked())
        } else if mentions(s, "\"focus_changed\""@) {
            Some(self.focused())
        } else {
            None
        }
    }

    /// The reactions to a line fit in the counters, and a canvas to redraw
    /// has a computable offset.
    pub open spec fn can_answer(self, s: Seq<char>) -> bool {
        &&& (self.answered(s) matches Some(q) ==> (q.tier2 ==> q.offset_defined()))
        &&& self.fits_reaction(s)
    }

    /// The reactions to a line fit in the counters.
    pub open spec fn fits_reaction(self, s: Seq<char>) -> bool {
        if mentions(s, "\"hello\""@) {
            true
        } else if mentions(s, "\"bell\""@) {
            self.frame + 14 <= u64::MAX
        } else if mentions(s, "\"widget_clicked\""@) {
            self.frame + 10 <= u64::MAX && self.joy + 12 <= u8::MAX
        } else if mentions(s, "\"focus_changed\""@) {
            self.frame + 6 <= u64::MAX && self.joy + 5 <= u8::MAX
        } else {
            true
        }
    }

    /// The pet after drawing: it remembers the signature of what it drew.
    pub open spec fn drawn(self) -> Pet {
        Pet { last_sig: self.signature(), ..self }
    }
}

fn mentions_exec(s: &Vec<char>, pat: &str) -> (b: bool)
    ensures
        b == mentions(s@, pat@),
{
    let p = chars_of(pat);
    match find(s, &p) {
        Some(_) => true,
        None => false,
    }
}

impl Pet {
    /// Reacts to one host line: a blank line is ignored, a
    /// shutdown ends the plugin, a `hello` picks the drawing tier from the
    /// host's api version, a bell, a click or a focus change reaches the pet;
    /// after any of these the widget is redrawn at once. Other lines are
    /// ignored.
    pub fn handle_line(&mut self, line: &str) -> (r: Reply)
        requires
            old(self).can_answer(line@),
        ensures
            blank(line@) ==> r is Ignore && *final(self) == *old(self),
            !blank(line@) && mentions(line@, "\"shutdown\""@) ==> r is Quit && *final(self) == *old(
                self,
            ),
            !blank(line@) && !mentions(line@, "\"shutdown\""@) && mentions(line@, "\"hello\""@)
                ==> *final(self) == (Pet {
                tier2: api_version_of(line@) >= 2,
                last_sig: final(self).last_sig,
                ..*old(self)
            }) && final(self).last_sig == final(self).signature(),
            !blank(line@) && !mentions(line@, "\"shutdown\""@) ==> match old(self).answered(line@) {
                Some(q) => *final(self) == q.drawn() && (r matches Reply::Redraw(t) && t@ == q.widget()),
                None => r is Ignore && *final(self) == *old(self),
            },
    {
        let s = chars_of(line);
        if blank_exec(&s) {
            return Reply::Ignore;
        }
        if mentions_exec(&s, "\"shutdown\"") {
            return Reply::Quit;
        }
        if mentions_exec(&s, "\"hello\"") {
            self.tier2 = crate::handshake::host_api_version(line) >= 2;
        } else if mentions_exec(&s, "\"bell\"") {
            self.on_bell();
        } else if mentions_exec(&s, "\"widget_clicked\"") {
            self.on_pet();
        } else if mentions_exec(&s, "\"focus_changed\"") {
            self.on_focus();
        } else {
            return Reply::Ignore;
        }
        self.last_sig = self.sig();
        Reply::Redraw(self.widget_line())
    }

    /// One animation step: ticks the pet and, when the visible signature
    /// changed since the last frame sent, records it and returns the update
    /// to send; an unchanged picture sends nothing.
    pub fn on_timer(&mut self) -> (r: Option<String>)
        requires
            old(self).can_tick(),
        ensures
            old(self).ticked().signature() == old(self).last_sig ==> r is None && *final(self)
                == old(self).ticked(),
            old(self).ticked().signature() != old(self).last_sig ==> *final(self) == old(
                self,
            ).ticked().drawn() && (r matches Some(t) && t@ == old(self).ticked().widget()),
    {
        self.tick();
        let sig = self.sig();
        if sig == self.last_sig {
            return None;
        }
        self.last_sig = sig;
        Some(self.widget_line())
    }
}

} // verus!
