//! The character-generator page: composes a random character description,
//! and keeps the list of saved characters that the settings store persists.

use vstd::prelude::*;

use crate::config::{SavedOC, SavedOCV};
use crate::pages::OCPageMessage;

verus! {

pub const ATTRIBUTE_COUNT: usize = 21;

pub const SPECIES_COUNT: usize = 12;

pub const CHARACTERISTIC_COUNT: usize = 16;

/// Relies on fastrand's `usize`: a number drawn from the thread-local
/// generator within the half-open range below `n`; it panics only on an
/// empty range, which the precondition excludes. Nothing can be promised
/// about which number comes back.
#[verifier::external_body]
fn random_below(n: usize) -> (r: usize)
    requires
        n > 0,
    ensures
        r < n,
{
    fastrand::usize(0..n)
}

pub open spec fn attribute_words() -> Seq<Seq<char>> {
    seq![
        "short"@, "tall"@, "fat"@, "nervous"@, "brave"@, "shy"@, "curious"@, "friendly"@,
        "aloof"@, "clever"@, "clumsy"@, "energetic"@, "sleepy"@, "grumpy"@, "optimistic"@,
        "pessimistic"@, "cunning"@, "kind"@, "sarcastic"@, "micro"@, "macro"@,
    ]
}

pub open spec fn species_words() -> Seq<Seq<char>> {
    seq![
        "cat"@, "dog"@, "fox"@, "wolf"@, "rabbit"@, "horse"@, "dragon"@, "lion"@, "tiger"@,
        "deer"@, "bat"@, "snake"@,
    ]
}

pub open spec fn characteristic_words() -> Seq<Seq<char>> {
    seq![
        "with a mohawk"@, "who never wears pants"@, "who constantly eats waffles"@,
        "with shiny earrings"@, "who always wears a cape"@, "with a tiny squeak"@,
        "who is overdramatic"@, "who is secretly a nerd"@, "who quotes philosophers"@,
        "who sings everything"@, "with a hat collection"@, "who overuses emoji"@,
        "who collects bad jokes"@, "who talks about vore"@, "with a ponytail"@,
        "who sparkles"@,
    ]
}

/// The description assembled from one word of each table.
pub open spec fn generated_text(i: int, j: int, k: int) -> Seq<char> {
    "A "@ + attribute_words()[i] + " "@ + species_words()[j] + " "@ + characteristic_words()[k]
}

/// A text the generator can produce: some choice from each word table.
pub open spec fn valid_generated(t: Seq<char>) -> bool {
    exists|i: int, j: int, k: int|
        0 <= i < ATTRIBUTE_COUNT && 0 <= j < SPECIES_COUNT && 0 <= k < CHARACTERISTIC_COUNT && t
            == #[trigger] generated_text(i, j, k)
}

fn attribute(i: usize) -> (w: &'static str)
    requires
        i < ATTRIBUTE_COUNT,
    ensures
        w@ == attribute_words()[i as int],
{
    match i {
        0 => "short",
        1 => "tall",
        2 => "fat",
        3 => "nervous",
        4 => "brave",
        5 => "shy",
        6 => "curious",
        7 => "friendly",
        8 => "aloof",
        9 => "clever",
        10 => "clumsy",
        11 => "energetic",
        12 => "sleepy",
        13 => "grumpy",
        14 => "optimistic",
        15 => "pessimistic",
        16 => "cunning",
        17 => "kind",
        18 => "sarcastic",
        19 => "micro",
        _ => "macro",
    }
}

fn species(j: usize) -> (w: &'static str)
    requires
        j < SPECIES_COUNT,
    ensures
        w@ == species_words()[j as int],
{
    match j {
        0 => "cat",
        1 => "dog",
        2 => "fox",
        3 => "wolf",
        4 => "rabbit",
        5 => "horse",
        6 => "dragon",
        7 => "lion",
        8 => "tiger",
        9 => "deer",
        10 => "bat",
        _ => "snake",
    }
}

fn characteristic(k: usize) -> (w: &'static str)
    requires
        k < CHARACTERISTIC_COUNT,
    ensures
        w@ == characteristic_words()[k as int],
{
    match k {
        0 => "with a mohawk",
        1 => "who never wears pants",
        2 => "who constantly eats waffles",
        3 => "with shiny earrings",
        4 => "who always wears a cape",
        5 => "with a tiny squeak",
        6 => "who is overdramatic",
        7 => "who is secretly a nerd",
        8 => "who quotes philosophers",
        9 => "who sings everything",
        10 => "with a hat collection",
        11 => "who overuses emoji",
        12 => "who collects bad jokes",
        13 => "who talks about vore",
        14 => "with a ponytail",
        _ => "who sparkles",
    }
}

/// What the page asks the dispatch loop to do after a message: nothing,
/// fetch the saved characters from the settings store, or persist the whole
/// list. The page itself performs no input or output.
pub enum OcEffect {
    Nothing,
    Fetch,
    Persist(Vec<SavedOC>),
}

/// Local state of the character-generator page.
pub struct OcGeneratorPage {
    pub oc_text: Option<String>,
    pub saved_characters: Vec<SavedOC>,
    pub is_loaded: bool,
}

impl Default for OcGeneratorPage {
    /// A page with nothing generated and nothing loaded yet.
    fn default() -> (r: Self)
        ensures
            r.oc_text is None,
            r.saved_characters.deep_view() == Seq::<SavedOCV>::empty(),
            !r.is_loaded,
    {
        let r = OcGeneratorPage { oc_text: None, saved_characters: Vec::new(), is_loaded: false };
        proof {
            assert(r.saved_characters.deep_view() =~= Seq::<SavedOCV>::empty());
        }
        r
    }
}

impl OcGeneratorPage {
    /// Compose a random character description from the word tables.
    fn generate(&self) -> (s: String)
        ensures
            valid_generated(s@),
    {
        let i = random_below(ATTRIBUTE_COUNT);
        let j = random_below(SPECIES_COUNT);
        let k = random_below(CHARACTERISTIC_COUNT);
        let s = String::from_str("A ").concat(attribute(i)).concat(" ").concat(species(j)).concat(
            " ",
        ).concat(characteristic(k));
        proof {
            assert(s@ =~= generated_text(i as int, j as int, k as int));
        }
        s
    }

    /// Make a copy of the saved-character list, for handing to the settings
    /// store.
    fn saved_copy(&self) -> (r: Vec<SavedOC>)
        ensures
            r.deep_view() == self.saved_characters.deep_view(),
    {
        let v = self.saved_characters.clone();
        proof {
            assert forall|k: int| 0 <= k < v.deep_view().len() implies #[trigger] v.deep_view()[k]
                == self.saved_characters.deep_view()[k] by {
                assert(cloned::<SavedOC>(self.saved_characters[k], v[k]));
            }
            assert(v.deep_view() =~= self.saved_characters.deep_view());
        }
        v
    }

    /// Apply one message to the page and say what, if anything, the loop
    /// should do with the settings store afterwards.
    ///
    /// A load is requested only once; saving appends the current text to
    /// the list and hands the whole list out for persistence; deleting an
    /// index out of range changes nothing.
    pub fn update(&mut self, message: OCPageMessage) -> (eff: OcEffect)
        ensures
            match message {
                OCPageMessage::LoadData => *final(self) == *old(self) && (if old(self).is_loaded {
                    eff is Nothing
                } else {
                    eff is Fetch
                }),
                OCPageMessage::GenerateButtonClicked => {
                    &&& final(self).saved_characters == old(self).saved_characters
                    &&& final(self).is_loaded == old(self).is_loaded
                    &&& final(self).oc_text matches Some(t) && valid_generated(t@)
                    &&& eff is Nothing
                },
                OCPageMessage::SaveButtonClicked => match old(self).oc_text {
                    Some(t) => {
                        &&& final(self).oc_text == old(self).oc_text
                        &&& final(self).is_loaded == old(self).is_loaded
                        &&& final(self).saved_characters.deep_view().len() == old(self).saved_characters.deep_view().len() + 1
                        &&& final(self).saved_characters.deep_view().drop_last() == old(self).saved_characters.deep_view()
                        &&& final(self).saved_characters.deep_view().last().text == t@
                        &&& final(self).saved_characters.deep_view().last().created_at >= 0
                        &&& eff matches OcEffect::Persist(l) && l.deep_view() == final(self).saved_characters.deep_view()
                    },
                    None => *final(self) == *old(self) && eff is Nothing,
                },
                OCPageMessage::DeleteCharacter(i) => {
                    if i < old(self).saved_characters.deep_view().len() {
                        &&& final(self).oc_text == old(self).oc_text
                        &&& final(self).is_loaded == old(self).is_loaded
                        &&& final(self).saved_characters.deep_view() == old(self).saved_characters.deep_view().remove(i as int)
                        &&& eff matches OcEffect::Persist(l) && l.deep_view() == final(self).saved_characters.deep_view()
                    } else {
                        *final(self) == *old(self) && eff is Nothing
                    }
                },
                OCPageMessage::CharactersLoaded(cfg) => {
                    &&& final(self).oc_text == old(self).oc_text
                    &&& final(self).saved_characters.deep_view() == cfg.characters.deep_view()
                    &&& final(self).is_loaded
                    &&& eff is Nothing
                },
            },
    {
        match message {
            OCPageMessage::LoadData => {
                if !self.is_loaded {
                    OcEffect::Fetch
                } else {
                    OcEffect::Nothing
                }
            },
            OCPageMessage::GenerateButtonClicked => {
                let s = self.generate();
                self.oc_text = Some(s);
                OcEffect::Nothing
            },
            OCPageMessage::SaveButtonClicked => {
                match &self.oc_text {
                    Some(t) => {
                        let ghost pre = self.saved_characters.deep_view();
                        let saved = SavedOC::new(t.clone());
                        self.saved_characters.push(saved);
                        proof {
                            assert(self.saved_characters.deep_view().drop_last() =~= pre);
                        }
                        OcEffect::Persist(self.saved_copy())
                    },
                    None => OcEffect::Nothing,
                }
            },
            OCPageMessage::DeleteCharacter(i) => {
                if i < self.saved_characters.len() {
                    let ghost pre = self.saved_characters.deep_view();
                    let _ = self.saved_characters.remove(i);
                    proof {
                        assert(self.saved_characters.deep_view() =~= pre.remove(i as int));
                    }
                    OcEffect::Persist(self.saved_copy())
                } else {
                    OcEffect::Nothing
                }
            },
            OCPageMessage::CharactersLoaded(cfg) => {
                self.saved_characters = cfg.characters;
                self.is_loaded = true;
                OcEffect::Nothing
            },
        }
    }
}

} // verus!
