//! The fixed, ordered set of output slots and their per-slot texts:
//! storage key, display name, and the slot-specific prompt clause.

use vstd::prelude::*;

verus! {

use crate::text::str_eq;

/// One of the ten fixed positions in the generated output.  The set and
/// its order never change at runtime.
#[derive(Clone, Copy, Debug, PartialEq, Eq, Structural)]
pub enum Slot {
    Cover,
    Prologue,
    Ch1,
    Ch2,
    Ch3,
    Ch4,
    Ch5,
    Ch6,
    Epilogue,
    Credits,
}

impl Slot {
    /// The canonical identifier of the slot, used in filenames.
    pub open spec fn key_spec(self) -> Seq<char> {
        match self {
            Slot::Cover => "cover"@,
            Slot::Prologue => "prologue"@,
            Slot::Ch1 => "ch1"@,
            Slot::Ch2 => "ch2"@,
            Slot::Ch3 => "ch3"@,
            Slot::Ch4 => "ch4"@,
            Slot::Ch5 => "ch5"@,
            Slot::Ch6 => "ch6"@,
            Slot::Epilogue => "epilogue"@,
            Slot::Credits => "credits"@,
        }
    }

    pub fn key(&self) -> (r: &'static str)
        ensures
            r@ == self.key_spec(),
    {
        match self {
            Slot::Cover => "cover",
            Slot::Prologue => "prologue",
            Slot::Ch1 => "ch1",
            Slot::Ch2 => "ch2",
            Slot::Ch3 => "ch3",
            Slot::Ch4 => "ch4",
            Slot::Ch5 => "ch5",
            Slot::Ch6 => "ch6",
            Slot::Epilogue => "epilogue",
            Slot::Credits => "credits",
        }
    }

    /// The human-readable name of the slot.
    pub open spec fn display_spec(self) -> Seq<char> {
        match self {
            Slot::Cover => "Cover"@,
            Slot::Prologue => "Prologue"@,
            Slot::Ch1 => "Chapter 1"@,
            Slot::Ch2 => "Chapter 2"@,
            Slot::Ch3 => "Chapter 3"@,
            Slot::Ch4 => "Chapter 4"@,
            Slot::Ch5 => "Chapter 5"@,
            Slot::Ch6 => "Chapter 6"@,
            Slot::Epilogue => "Epilogue"@,
            Slot::Credits => "Credits"@,
        }
    }

    pub fn display_name(&self) -> (r: &'static str)
        ensures
            r@ == self.display_spec(),
    {
        match self {
            Slot::Cover => "Cover",
            Slot::Prologue => "Prologue",
            Slot::Ch1 => "Chapter 1",
            Slot::Ch2 => "Chapter 2",
            Slot::Ch3 => "Chapter 3",
            Slot::Ch4 => "Chapter 4",
            Slot::Ch5 => "Chapter 5",
            Slot::Ch6 => "Chapter 6",
            Slot::Epilogue => "Epilogue",
            Slot::Credits => "Credits",
        }
    }

    /// The slot-specific clause of the generation prompt.
    pub open spec fn clause_spec(self) -> Seq<char> {
        match self {
            Slot::Cover => "Cover art: iconic moment that communicates the theme, clear focal subject, inviting warm lighting."@,
            Slot::Prologue => "Prologue scene: establish setting and mood, gentle intrigue, readable composition."@,
            Slot::Ch1 => "Chapter 1 scene: introduce protagonist doing a simple action that sets the story in motion."@,
            Slot::Ch2 => "Chapter 2 scene: friendly interaction or small challenge, upbeat tone."@,
            Slot::Ch3 => "Chapter 3 scene: discovery moment—visual clue, mild suspense without fear."@,
            Slot::Ch4 => "Chapter 4 scene: obstacle moment—show problem visually, still kid-safe."@,
            Slot::Ch5 => "Chapter 5 scene: teamwork or learning moment—progress and hope."@,
            Slot::Ch6 => "Chapter 6 scene: resolution moment—celebration or calm victory."@,
            Slot::Epilogue => "Epilogue scene: peaceful wrap-up, cozy closing image."@,
            Slot::Credits => "Credits background: simple pleasing backdrop with space for overlay later (but generate with NO TEXT)."@,
        }
    }

    pub fn clause(&self) -> (r: &'static str)
        ensures
            r@ == self.clause_spec(),
    {
        match self {
            Slot::Cover => "Cover art: iconic moment that communicates the theme, clear focal subject, inviting warm lighting.",
            Slot::Prologue => "Prologue scene: establish setting and mood, gentle intrigue, readable composition.",
            Slot::Ch1 => "Chapter 1 scene: introduce protagonist doing a simple action that sets the story in motion.",
            Slot::Ch2 => "Chapter 2 scene: friendly interaction or small challenge, upbeat tone.",
            Slot::Ch3 => "Chapter 3 scene: discovery moment—visual clue, mild suspense without fear.",
            Slot::Ch4 => "Chapter 4 scene: obstacle moment—show problem visually, still kid-safe.",
            Slot::Ch5 => "Chapter 5 scene: teamwork or learning moment—progress and hope.",
            Slot::Ch6 => "Chapter 6 scene: resolution moment—celebration or calm victory.",
            Slot::Epilogue => "Epilogue scene: peaceful wrap-up, cozy closing image.",
            Slot::Credits => "Credits background: simple pleasing backdrop with space for overlay later (but generate with NO TEXT).",
        }
    }

    /// The slot whose key is `key`, if any.
    pub open spec fn from_key_spec(key: Seq<char>) -> Option<Slot> {
        if key == "cover"@ {
            Some(Slot::Cover)
        } else if key == "prologue"@ {
            Some(Slot::Prologue)
        } else if key == "ch1"@ {
            Some(Slot::Ch1)
        } else if key == "ch2"@ {
            Some(Slot::Ch2)
        } else if key == "ch3"@ {
            Some(Slot::Ch3)
        } else if key == "ch4"@ {
            Some(Slot::Ch4)
        } else if key == "ch5"@ {
            Some(Slot::Ch5)
        } else if key == "ch6"@ {
            Some(Slot::Ch6)
        } else if key == "epilogue"@ {
            Some(Slot::Epilogue)
        } else if key == "credits"@ {
            Some(Slot::Credits)
        } else {
            None
        }
    }

    pub fn from_key(key: &str) -> (r: Option<Slot>)
        ensures
            r == Slot::from_key_spec(key@),
    {
        if str_eq(key, "cover") {
            Some(Slot::Cover)
        } else if str_eq(key, "prologue") {
            Some(Slot::Prologue)
        } else if str_eq(key, "ch1") {
            Some(Slot::Ch1)
        } else if str_eq(key, "ch2") {
            Some(Slot::Ch2)
        } else if str_eq(key, "ch3") {
            Some(Slot::Ch3)
        } else if str_eq(key, "ch4") {
            Some(Slot::Ch4)
        } else if str_eq(key, "ch5") {
            Some(Slot::Ch5)
        } else if str_eq(key, "ch6") {
            Some(Slot::Ch6)
        } else if str_eq(key, "epilogue") {
            Some(Slot::Epilogue)
        } else if str_eq(key, "credits") {
            Some(Slot::Credits)
        } else {
            None
        }
    }
}

/// The fixed slot order: cover, prologue, the six chapters, epilogue,
/// credits.
pub open spec fn all_slots_spec() -> Seq<Slot> {
    seq![
        Slot::Cover,
        Slot::Prologue,
        Slot::Ch1,
        Slot::Ch2,
        Slot::Ch3,
        Slot::Ch4,
        Slot::Ch5,
        Slot::Ch6,
        Slot::Epilogue,
        Slot::Credits,
    ]
}

pub fn all_slots() -> (r: Vec<Slot>)
    ensures
        r@ == all_slots_spec(),
{
    let mut v: Vec<Slot> = Vec::new();
    v.push(Slot::Cover);
    v.push(Slot::Prologue);
    v.push(Slot::Ch1);
    v.push(Slot::Ch2);
    v.push(Slot::Ch3);
    v.push(Slot::Ch4);
    v.push(Slot::Ch5);
    v.push(Slot::Ch6);
    v.push(Slot::Epilogue);
    v.push(Slot::Credits);
    proof {
        assert(v@ =~= all_slots_spec());
    }
    v
}

/// The display name for a slot key; an unrecognized key is shown as it
/// is.
pub open spec fn pretty_slot_name_spec(key: Seq<char>) -> Seq<char> {
    match Slot::from_key_spec(key) {
        Some(s) => s.display_spec(),
        None => key,
    }
}

pub fn pretty_slot_name<'a>(key: &'a str) -> (r: &'a str)
    ensures
        r@ == pretty_slot_name_spec(key@),
{
    match Slot::from_key(key) {
        Some(s) => s.display_name(),
        None => key,
    }
}

} // verus!
