//! The character generator and the saved-artifact lifecycle: appending,
//! persisting the whole list, reloading, and deleting by index.

use cosmi_kit::config::{SavedCharactersConfig, SavedOC, SettingsStore};
use cosmi_kit::dispatch::{AppModel, Command, Message};
use cosmi_kit::memory::MemStore;
use cosmi_kit::oc_generator::{OcEffect, OcGeneratorPage};
use cosmi_kit::pages::OCPageMessage;

fn page_with(texts: &[&str]) -> OcGeneratorPage {
    let mut page = OcGeneratorPage::default();
    let characters = texts
        .iter()
        .map(|t| SavedOC { text: t.to_string(), created_at: 7 })
        .collect();
    let _ = page.update(OCPageMessage::CharactersLoaded(SavedCharactersConfig { characters }));
    page
}

#[test]
fn appending_and_reloading_keeps_all_artifacts_in_order() {
    let mut store = SettingsStore::new();
    let mut page = page_with(&[]);
    let texts = ["first", "second", "third", "fourth"];
    for t in texts {
        page.oc_text = Some(t.to_string());
        match page.update(OCPageMessage::SaveButtonClicked) {
            OcEffect::Persist(list) => {
                SavedCharactersConfig { characters: list }.write_entry(&mut store);
            }
            _ => panic!("saving must persist the whole list"),
        }
    }
    // reload into a fresh page, as a next session would
    let mut reloaded = OcGeneratorPage::default();
    let cfg = SavedCharactersConfig::get_entry(&store);
    let _ = reloaded.update(OCPageMessage::CharactersLoaded(cfg));
    assert!(reloaded.is_loaded);
    assert_eq!(reloaded.saved_characters.len(), texts.len());
    for (i, t) in texts.iter().enumerate() {
        assert_eq!(reloaded.saved_characters[i].text, *t);
    }
}

#[test]
fn deleting_one_index_keeps_the_rest_in_relative_order() {
    let mut page = page_with(&["a", "b", "c", "d"]);
    match page.update(OCPageMessage::DeleteCharacter(1)) {
        OcEffect::Persist(list) => {
            assert_eq!(list.len(), 3);
            assert_eq!(list[0].text, "a");
            assert_eq!(list[1].text, "c");
            assert_eq!(list[2].text, "d");
        }
        _ => panic!("deletion must persist the remaining list"),
    }
    assert_eq!(page.saved_characters.len(), 3);
}

#[test]
fn deleting_out_of_range_changes_nothing() {
    let mut page = page_with(&["a", "b"]);
    assert!(matches!(
        page.update(OCPageMessage::DeleteCharacter(2)),
        OcEffect::Nothing
    ));
    assert_eq!(page.saved_characters.len(), 2);
}

#[test]
fn the_settings_store_round_trips_the_whole_list() {
    let mut store = SettingsStore::new();
    // nothing written yet reads as the empty list
    assert_eq!(SavedCharactersConfig::get_entry(&store).characters.len(), 0);
    let characters = vec![
        SavedOC { text: "one".to_string(), created_at: 1 },
        SavedOC { text: "two".to_string(), created_at: 2 },
    ];
    SavedCharactersConfig { characters }.write_entry(&mut store);
    let back = SavedCharactersConfig::get_entry(&store);
    assert_eq!(back.characters.len(), 2);
    assert_eq!(back.characters[0].text, "one");
    assert_eq!(back.characters[0].created_at, 1);
    assert_eq!(back.characters[1].text, "two");
}

#[test]
fn generating_produces_a_composed_description() {
    let mut page = OcGeneratorPage::default();
    let eff = page.update(OCPageMessage::GenerateButtonClicked);
    assert!(matches!(eff, OcEffect::Nothing));
    let text = page.oc_text.as_deref().unwrap();
    assert!(text.starts_with("A "));
    // one attribute, one species, some characteristic words
    assert!(text.split(' ').count() >= 4);
}

#[test]
fn saving_without_a_generated_text_does_nothing() {
    let mut page = OcGeneratorPage::default();
    assert!(matches!(page.update(OCPageMessage::SaveButtonClicked), OcEffect::Nothing));
    assert_eq!(page.saved_characters.len(), 0);
}

#[test]
fn load_is_requested_only_once() {
    let mut page = OcGeneratorPage::default();
    assert!(matches!(page.update(OCPageMessage::LoadData), OcEffect::Fetch));
    let _ = page.update(OCPageMessage::CharactersLoaded(SavedCharactersConfig {
        characters: vec![],
    }));
    assert!(matches!(page.update(OCPageMessage::LoadData), OcEffect::Nothing));
}

#[test]
fn saved_characters_carry_their_creation_time() {
    let oc = SavedOC::new("A brave fox with a hat collection".to_string());
    assert_eq!(oc.text, "A brave fox with a hat collection");
    assert!(oc.created_at >= 0);
}

#[test]
fn the_loop_turns_page_effects_into_persistence_commands() {
    let (mut model, _) = AppModel::<MemStore>::new(cosmi_kit::config::Config::default());
    let cmds = model.update(Message::OcGeneratorPage(OCPageMessage::LoadData));
    assert!(matches!(cmds[0], Command::FetchCharacters));
    model.oc_generator_page.oc_text = Some("A shy cat who sparkles".to_string());
    let cmds = model.update(Message::OcGeneratorPage(OCPageMessage::SaveButtonClicked));
    match &cmds[0] {
        Command::PersistCharacters(list) => {
            assert_eq!(list.len(), 1);
            assert_eq!(list[0].text, "A shy cat who sparkles");
        }
        _ => panic!("saving must schedule persistence"),
    }
}
