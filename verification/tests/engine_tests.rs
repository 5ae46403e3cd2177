use sulphur::asset::EntityKind;
use sulphur::collection::Collection;
use sulphur::engine::{Engine, Event, Phase, Request};
use sulphur::errors::CoreError;
use sulphur::menu::Menu;

#[test]
fn engine_menu_matches_the_kind() {
    let e = Engine::new(Collection::new(EntityKind::BaseData));
    assert_eq!(e.menu(), Menu::IwadManagementMenu);
    let e = Engine::new(Collection::new(EntityKind::AddOn));
    assert_eq!(e.menu(), Menu::ModManagementMenu);
}

fn addon_collection(paths: &[&str]) -> Collection {
    let mut c = Collection::new(EntityKind::AddOn);
    for p in paths {
        c.add(p.to_string()).unwrap();
    }
    c
}

#[test]
fn empty_collection_forces_add_without_menu() {
    let mut e = Engine::new(Collection::new(EntityKind::BaseData));
    assert_eq!(e.phase, Phase::InitialEmptyAdd);
    let r = e.step(Event::Proceed).unwrap();
    assert!(matches!(r, Request::BrowseForFile));
}

#[test]
fn nonempty_collection_starts_at_the_menu() {
    let mut e = Engine::new(addon_collection(&["/m/a.pk3"]));
    assert_eq!(e.phase, Phase::ActionMenu);
    let r = e.step(Event::Proceed).unwrap();
    assert!(matches!(r, Request::ChooseAction));
}

#[test]
fn scenario_add_to_empty_base_data() {
    // Scenario: empty base-data collection, the browser returns
    // /games/doom2.wad, the move offer is declined.
    let mut e = Engine::new(Collection::new(EntityKind::BaseData));
    let r = e.step(Event::Proceed).unwrap();
    assert!(matches!(r, Request::BrowseForFile));
    let r = e.step(Event::Browsed(Some("/games/doom2.wad".to_string()))).unwrap();
    assert!(matches!(r, Request::ConfirmMove));
    let r = e.step(Event::MoveAnswer(false)).unwrap();
    assert!(matches!(r, Request::ChooseAction));
    assert_eq!(e.collection.len(), 1);
    assert_eq!(e.collection.items()[0].asset.path, "/games/doom2.wad");
    assert!(e.collection.items()[0].asset.enabled);
    // the toggle list shows the new entity's label and the sentinel
    let r = e.step(Event::ActionChosen(1)).unwrap();
    match r {
        Request::ChooseToggle(ls) => {
            assert_eq!(ls, vec!["doom2.wad (Enabled)".to_string(), "Back".to_string()]);
        }
        other => panic!("expected the toggle list, got {:?}", other),
    }
}

#[test]
fn scenario_remove_middle_of_three_terminates() {
    // Scenario: three add-ons, Remove of index 1 confirmed; the session
    // ends and the former index 2 stands at index 1.
    //
    // Note the asymmetry: a confirmed removal ends the whole session,
    // while Add and Toggle return to the action menu. That is the
    // intended behavior, not an accident of this test.
    let mut e = Engine::new(addon_collection(&["/m/a.pk3", "/m/b.pk3", "/m/c.pk3"]));
    e.step(Event::Proceed).unwrap();
    let r = e.step(Event::ActionChosen(2)).unwrap();
    match r {
        Request::ChooseRemove(ls) => assert_eq!(ls.len(), 4),
        other => panic!("expected the remove list, got {:?}", other),
    }
    let r = e.step(Event::RemoveChosen(1)).unwrap();
    match r {
        Request::ConfirmRemove(label) => assert_eq!(label, "b.pk3 (Enabled)"),
        other => panic!("expected the confirmation, got {:?}", other),
    }
    let r = e.step(Event::RemoveAnswer(true)).unwrap();
    assert!(matches!(r, Request::Done));
    assert_eq!(e.phase, Phase::Terminated);
    let c = e.into_collection();
    assert_eq!(c.len(), 2);
    assert_eq!(c.items()[0].asset.path, "/m/a.pk3");
    assert_eq!(c.items()[1].asset.path, "/m/c.pk3");
}

#[test]
fn declining_the_removal_changes_nothing() {
    let mut e = Engine::new(addon_collection(&["/m/a.pk3", "/m/b.pk3"]));
    e.step(Event::Proceed).unwrap();
    e.step(Event::ActionChosen(2)).unwrap();
    e.step(Event::RemoveChosen(0)).unwrap();
    let r = e.step(Event::RemoveAnswer(false)).unwrap();
    assert!(matches!(r, Request::ChooseAction));
    assert_eq!(e.collection.len(), 2);
    assert_eq!(e.collection.items()[0].asset.path, "/m/a.pk3");
    assert!(e.collection.items()[0].asset.enabled);
}

#[test]
fn remove_list_sentinel_returns_to_the_menu() {
    let mut e = Engine::new(addon_collection(&["/m/a.pk3"]));
    e.step(Event::Proceed).unwrap();
    e.step(Event::ActionChosen(2)).unwrap();
    let r = e.step(Event::RemoveChosen(1)).unwrap();
    assert!(matches!(r, Request::ChooseAction));
    assert_eq!(e.collection.len(), 1);
}

#[test]
fn toggle_flips_and_reports_the_new_state() {
    let mut e = Engine::new(addon_collection(&["/m/a.pk3"]));
    e.step(Event::Proceed).unwrap();
    e.step(Event::ActionChosen(1)).unwrap();
    let r = e.step(Event::ToggleChosen(0)).unwrap();
    match r {
        Request::Notice(n) => assert_eq!(n, "Disabled a.pk3"),
        other => panic!("expected a notice, got {:?}", other),
    }
    assert!(!e.collection.items()[0].asset.enabled);
    // toggling again restores the flag and reports the other state
    e.step(Event::Proceed).unwrap();
    e.step(Event::ActionChosen(1)).unwrap();
    let r = e.step(Event::ToggleChosen(0)).unwrap();
    match r {
        Request::Notice(n) => assert_eq!(n, "Enabled a.pk3"),
        other => panic!("expected a notice, got {:?}", other),
    }
    assert!(e.collection.items()[0].asset.enabled);
}

#[test]
fn toggle_list_sentinel_returns_to_the_menu() {
    let mut e = Engine::new(addon_collection(&["/m/a.pk3"]));
    e.step(Event::Proceed).unwrap();
    e.step(Event::ActionChosen(1)).unwrap();
    let r = e.step(Event::ToggleChosen(1)).unwrap();
    assert!(matches!(r, Request::ChooseAction));
    assert!(e.collection.items()[0].asset.enabled);
}

#[test]
fn empty_toggle_and_remove_give_notices() {
    let mut c = addon_collection(&["/m/a.pk3"]);
    c.remove_entity(0).unwrap();
    let mut e = Engine::new(c);
    // an empty collection forces one Add first; cancelling it reaches the menu
    assert_eq!(e.phase, Phase::InitialEmptyAdd);
    e.step(Event::Proceed).unwrap();
    e.step(Event::Browsed(None)).unwrap();
    let r = e.step(Event::ActionChosen(1)).unwrap();
    match r {
        Request::Notice(n) => assert_eq!(n, "No assets available to toggle."),
        other => panic!("expected a notice, got {:?}", other),
    }
    let r = e.step(Event::Proceed).unwrap();
    assert!(matches!(r, Request::ChooseAction));
    let r = e.step(Event::ActionChosen(2)).unwrap();
    match r {
        Request::Notice(n) => assert_eq!(n, "No assets available to remove."),
        other => panic!("expected a notice, got {:?}", other),
    }
    assert_eq!(e.collection.len(), 0);
}

#[test]
fn back_terminates_the_session() {
    let mut e = Engine::new(addon_collection(&["/m/a.pk3"]));
    e.step(Event::Proceed).unwrap();
    let r = e.step(Event::ActionChosen(3)).unwrap();
    assert!(matches!(r, Request::Done));
    assert_eq!(e.phase, Phase::Terminated);
}

#[test]
fn cancelled_browse_returns_to_the_menu() {
    let mut e = Engine::new(Collection::new(EntityKind::AddOn));
    e.step(Event::Proceed).unwrap();
    let r = e.step(Event::Browsed(None)).unwrap();
    assert!(matches!(r, Request::ChooseAction));
    assert_eq!(e.collection.len(), 0);
}

#[test]
fn accepted_move_rewrites_the_new_entity_path() {
    let mut e = Engine::new(Collection::new(EntityKind::AddOn));
    e.step(Event::Proceed).unwrap();
    e.step(Event::Browsed(Some("/downloads/brutal.pk3".to_string()))).unwrap();
    let r = e.step(Event::MoveAnswer(true)).unwrap();
    match r {
        Request::MoveFile(ix) => assert_eq!(ix, 0),
        other => panic!("expected the move request, got {:?}", other),
    }
    let r = e.step(Event::Moved("/managed/brutal.pk3".to_string())).unwrap();
    assert!(matches!(r, Request::ChooseAction));
    assert_eq!(e.collection.items()[0].asset.path, "/managed/brutal.pk3");
    assert!(e.collection.items()[0].asset.enabled);
}

#[test]
fn browsed_path_without_file_name_aborts_with_invalid_path() {
    let mut e = Engine::new(Collection::new(EntityKind::AddOn));
    e.step(Event::Proceed).unwrap();
    let r = e.step(Event::Browsed(Some("/".to_string())));
    assert!(matches!(r, Err(CoreError::InvalidPath)));
    assert_eq!(e.phase, Phase::Terminated);
    assert_eq!(e.collection.len(), 0);
}

#[test]
fn failed_move_target_keeps_the_entity_appended() {
    let mut e = Engine::new(Collection::new(EntityKind::AddOn));
    e.step(Event::Proceed).unwrap();
    e.step(Event::Browsed(Some("/downloads/brutal.pk3".to_string()))).unwrap();
    e.step(Event::MoveAnswer(true)).unwrap();
    let r = e.step(Event::Moved("/managed/".to_string()));
    assert!(matches!(r, Err(CoreError::InvalidPath)));
    // partial-failure state is retained: the entity stays, path unchanged
    assert_eq!(e.collection.len(), 1);
    assert_eq!(e.collection.items()[0].asset.path, "/downloads/brutal.pk3");
}
