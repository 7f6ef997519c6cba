use vstd::prelude::*;

verus! {

/// What the pet feels, in order of precedence: a reaction in progress beats a
/// nap, a nap beats hunger, hunger beats sadness, and so on.
#[derive(Clone, Copy, Debug, PartialEq, Eq, Structural)]
pub enum Mood {
    Excited,
    Petted,
    Sleepy,
    Hungry,
    Sad,
    Happy,
    Neutral,
}

/// The rank of each mood, used as the low bits of the frame signature.
pub open spec fn mood_rank(m: Mood) -> u64 {
    match m {
        Mood::Excited => 0,
        Mood::Petted => 1,
        Mood::Sleepy => 2,
        Mood::Hungry => 3,
        Mood::Sad => 4,
        Mood::Happy => 5,
        Mood::Neutral => 6,
    }
}

/// The status word shown after the pet's name in the card title.
pub open spec fn mood_word(m: Mood) -> Seq<char> {
    match m {
        Mood::Excited => "yay"@,
        Mood::Petted => "<3"@,
        Mood::Sleepy => "zzz"@,
        Mood::Hungry => "hungry"@,
        Mood::Sad => "glum"@,
        Mood::Happy => "happy"@,
        Mood::Neutral => "ok"@,
    }
}

/// The text face shown on hosts that cannot draw.
pub open spec fn mood_face(m: Mood) -> Seq<char> {
    match m {
        Mood::Excited => "(^o^)"@,
        Mood::Petted => "(^.^)"@,
        Mood::Sleepy => "(-_-)"@,
        Mood::Hungry => "(o~o)"@,
        Mood::Sad => "(T_T)"@,
        Mood::Happy => "(^_^)"@,
        Mood::Neutral => "(._.)"@,
    }
}

impl Mood {
    pub fn ord(self) -> (r: u64)
        ensures
            r == mood_rank(self),
            r < 7,
    {
        match self {
            Mood::Excited => 0,
            Mood::Petted => 1,
            Mood::Sleepy => 2,
            Mood::Hungry => 3,
            Mood::Sad => 4,
            Mood::Happy => 5,
            Mood::Neutral => 6,
        }
    }

    /// The short status word shown after the name in the card title.
    pub fn word(self) -> (w: &'static str)
        ensures
            w@ == mood_word(self),
    {
        match self {
            Mood::Excited => "yay",
            Mood::Petted => "<3",
            Mood::Sleepy => "zzz",
            Mood::Hungry => "hungry",
            Mood::Sad => "glum",
            Mood::Happy => "happy",
            Mood::Neutral => "ok",
        }
    }

    /// The text face (plain ASCII, with nothing that needs escaping).
    pub fn face(self) -> (f: &'static str)
        ensures
            f@ == mood_face(self),
    {
        match self {
            Mood::Excited => "(^o^)",
            Mood::Petted => "(^.^)",
            Mood::Sleepy => "(-_-)",
            Mood::Hungry => "(o~o)",
            Mood::Sad => "(T_T)",
            Mood::Happy => "(^_^)",
            Mood::Neutral => "(._.)",
        }
    }
}

/// Distinct moods have distinct ranks, so the rank identifies the mood.
pub proof fn lemma_rank_identifies_mood(a: Mood, b: Mood)
    ensures
        mood_rank(a) == mood_rank(b) <==> a == b,
{
}

} // verus!
