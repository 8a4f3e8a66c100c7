//! The configuration layer: application preferences and the saved-character
//! list, persisted outside the relational store in a key-value settings
//! store that replaces whole values on every write.

use vstd::prelude::*;

verus! {

/// Mathematical view of a saved character.
pub struct SavedOCV {
    pub text: Seq<char>,
    pub created_at: int,
}

/// A character saved from the generator: opaque content plus its creation
/// time in seconds since the Unix epoch.
pub struct SavedOC {
    pub text: String,
    pub created_at: i64,
}

impl View for SavedOC {
    type V = SavedOCV;

    open spec fn view(&self) -> SavedOCV {
        SavedOCV { text: self.text@, created_at: self.created_at as int }
    }
}

impl DeepView for SavedOC {
    type V = SavedOCV;

    open spec fn deep_view(&self) -> SavedOCV {
        self.view()
    }
}

impl Clone for SavedOC {
    fn clone(&self) -> (r: Self)
        ensures
            r@ == self@,
    {
        SavedOC { text: self.text.clone(), created_at: self.created_at }
    }
}

/// Relies on chrono's `Utc::now`: the current wall-clock time in seconds
/// since the Unix epoch. The call returns only for clocks within chrono's
/// supported range, and every such value is non-negative; nothing more can
/// be promised of a reading of the clock.
#[verifier::external_body]
fn now_timestamp() -> (t: i64)
    ensures
        t >= 0,
{
    chrono::Utc::now().timestamp()
}

impl SavedOC {
    /// A saved character stamped with the current wall-clock time.
    pub fn new(text: String) -> (r: Self)
        ensures
            r@.text == text@,
            r@.created_at >= 0,
    {
        SavedOC { text: text, created_at: now_timestamp() }
    }
}

/// Application preferences persisted between runs.
#[derive(Debug)]
pub struct Config {
    pub demo: String,
}

impl Clone for Config {
    fn clone(&self) -> (r: Self)
        ensures
            r.demo@ == self.demo@,
    {
        Config { demo: self.demo.clone() }
    }
}

impl Default for Config {
    /// An empty preferences record.
    fn default() -> (r: Self)
        ensures
            r.demo@ == Seq::<char>::empty(),
    {
        Config { demo: String::new() }
    }
}

/// The whole saved-character list as one settings value: it is written and
/// read as a unit, never updated in place.
pub struct SavedCharactersConfig {
    pub characters: Vec<SavedOC>,
}

/// The in-memory model of the settings store: at most one stored
/// saved-character list. The surrounding shell mirrors every write to the
/// platform's preferences mechanism and seeds this store from it at start.
pub struct SettingsStore {
    characters: Option<Vec<SavedOC>>,
}

impl SettingsStore {
    /// What the store currently holds under the saved-characters key.
    pub closed spec fn characters_view(&self) -> Option<Seq<SavedOCV>> {
        match self.characters {
            Some(v) => Some(v.deep_view()),
            None => None,
        }
    }

    /// A store with nothing written yet.
    pub fn new() -> (r: Self)
        ensures
            r.characters_view() is None,
    {
        SettingsStore { characters: None }
    }
}

impl SavedCharactersConfig {
    /// Write the whole list under its key, replacing any previous value.
    pub fn write_entry(&self, store: &mut SettingsStore)
        ensures
            final(store).characters_view() == Some(self.characters.deep_view()),
    {
        let mut copy: Vec<SavedOC> = Vec::new();
        let n = self.characters.len();
        let mut i: usize = 0;
        while i < n
            invariant
                n == self.characters.len(),
                i <= n,
                copy.deep_view() == self.characters.deep_view().take(i as int),
            decreases n - i,
        {
            let ghost pre = copy.deep_view();
            copy.push(self.characters[i].clone());
            proof {
                assert(copy.deep_view() =~= pre.push(self.characters.deep_view()[i as int]));
                assert(copy.deep_view() =~= self.characters.deep_view().take(i as int + 1));
            }
            i = i + 1;
        }
        proof {
            assert(copy.deep_view() =~= self.characters.deep_view());
        }
        store.characters = Some(copy);
    }

    /// Read the whole list back; a store with nothing written yields the
    /// empty list.
    pub fn get_entry(store: &SettingsStore) -> (r: Self)
        ensures
            store.characters_view() matches Some(cs) ==> r.characters.deep_view() == cs,
            store.characters_view() is None ==> r.characters.deep_view() == Seq::<SavedOCV>::empty(),
    {
        match &store.characters {
            Some(v) => {
                let mut copy: Vec<SavedOC> = Vec::new();
                let n = v.len();
                let mut i: usize = 0;
                while i < n
                    invariant
                        n == v.len(),
                        i <= n,
                        copy.deep_view() == v.deep_view().take(i as int),
                    decreases n - i,
                {
                    let ghost pre = copy.deep_view();
                    copy.push(v[i].clone());
                    proof {
                        assert(copy.deep_view() =~= pre.push(v.deep_view()[i as int]));
                        assert(copy.deep_view() =~= v.deep_view().take(i as int + 1));
                    }
                    i = i + 1;
                }
                proof {
                    assert(copy.deep_view() =~= v.deep_view());
                }
                SavedCharactersConfig { characters: copy }
            },
            None => SavedCharactersConfig { characters: Vec::new() },
        }
    }
}

/// The round trip through the settings store: writing a saved-character
/// list and reading it back yields the same list, in the same order.
pub proof fn lemma_saved_characters_round_trip(
    cfg: SavedCharactersConfig,
    post: SettingsStore,
    reread: SavedCharactersConfig,
)
    requires
        post.characters_view() == Some(cfg.characters.deep_view()),
        reread.characters.deep_view() == match post.characters_view() {
            Some(cs) => cs,
            None => Seq::<SavedOCV>::empty(),
        },
    ensures
        reread.characters.deep_view() == cfg.characters.deep_view(),
{
}

} // verus!
