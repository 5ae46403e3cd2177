use sulphur::asset::{allowed_extensions, construct, display_name, is_enabled, EntityKind};
use sulphur::collection::Collection;
use sulphur::errors::CoreError;

#[test]
fn construct_builds_enabled_entity() {
    let e = construct(EntityKind::BaseData, "/games/doom2.wad".to_string()).unwrap();
    assert!(e.asset.enabled);
    assert_eq!(e.asset.path, "/games/doom2.wad");
    assert!(is_enabled(&e));
    assert_eq!(display_name(&e).unwrap(), "doom2.wad");
}

#[test]
fn construct_rejects_path_without_file_name() {
    let r = construct(EntityKind::AddOn, "/".to_string());
    assert!(matches!(r, Err(CoreError::InvalidPath)));
}

#[test]
fn allowed_extensions_are_the_literal_filters() {
    let base: Vec<String> = allowed_extensions(EntityKind::BaseData);
    assert_eq!(base, vec!["wad".to_string(), "iwad".to_string()]);
    let addon: Vec<String> = allowed_extensions(EntityKind::AddOn);
    assert_eq!(addon, vec!["wad".to_string(), "pk3".to_string(), "zip".to_string()]);
}

#[test]
fn collection_construct_uses_its_kind() {
    let c = Collection::new(EntityKind::AddOn);
    let e = c.construct("/m/brutal.pk3".to_string()).unwrap();
    assert_eq!(e.kind, EntityKind::AddOn);
    assert!(e.asset.enabled);
    assert_eq!(c.len(), 0);
    assert!(matches!(c.construct("/m/".to_string()), Err(CoreError::InvalidPath)));
}

#[test]
fn add_appends_at_prior_length() {
    let mut c = Collection::new(EntityKind::AddOn);
    assert_eq!(c.add("/m/a.pk3".to_string()).unwrap(), 0);
    assert_eq!(c.add("/m/b.pk3".to_string()).unwrap(), 1);
    assert_eq!(c.len(), 2);
    assert_eq!(c.items()[1].asset.path, "/m/b.pk3");
    assert!(c.items()[1].asset.enabled);
}

#[test]
fn add_duplicate_paths_may_coexist() {
    let mut c = Collection::new(EntityKind::AddOn);
    c.add("/m/a.pk3".to_string()).unwrap();
    c.add("/m/a.pk3".to_string()).unwrap();
    assert_eq!(c.len(), 2);
}

#[test]
fn add_rejects_invalid_path_and_changes_nothing() {
    let mut c = Collection::new(EntityKind::BaseData);
    let r = c.add("/games/".to_string());
    assert!(matches!(r, Err(CoreError::InvalidPath)));
    assert_eq!(c.len(), 0);
}

#[test]
fn toggle_is_an_involution() {
    let mut c = Collection::new(EntityKind::BaseData);
    c.add("/g/one.wad".to_string()).unwrap();
    c.add("/g/two.wad".to_string()).unwrap();
    let before: Vec<(String, bool)> =
        c.items().iter().map(|e| (e.asset.path.clone(), e.asset.enabled)).collect();
    assert_eq!(c.toggle(1).unwrap(), false);
    assert_eq!(c.len(), 2);
    assert_eq!(c.items()[1].asset.enabled, false);
    assert_eq!(c.items()[0].asset.enabled, true);
    assert_eq!(c.toggle(1).unwrap(), true);
    let after: Vec<(String, bool)> =
        c.items().iter().map(|e| (e.asset.path.clone(), e.asset.enabled)).collect();
    assert_eq!(before, after);
}

#[test]
fn toggle_out_of_range_is_index_error() {
    let mut c = Collection::new(EntityKind::BaseData);
    let r = c.toggle(0);
    assert!(matches!(r, Err(CoreError::IndexOutOfRange)));
}

#[test]
fn remove_shifts_tail_down_by_one() {
    let mut c = Collection::new(EntityKind::AddOn);
    c.add("/m/a.pk3".to_string()).unwrap();
    c.add("/m/b.pk3".to_string()).unwrap();
    c.add("/m/c.pk3".to_string()).unwrap();
    let gone = c.remove_entity(1).unwrap();
    assert_eq!(gone.asset.path, "/m/b.pk3");
    assert_eq!(c.len(), 2);
    assert_eq!(c.items()[0].asset.path, "/m/a.pk3");
    assert_eq!(c.items()[1].asset.path, "/m/c.pk3");
}

#[test]
fn remove_out_of_range_is_index_error() {
    let mut c = Collection::new(EntityKind::AddOn);
    c.add("/m/a.pk3".to_string()).unwrap();
    let r = c.remove_entity(1);
    assert!(matches!(r, Err(CoreError::IndexOutOfRange)));
    assert_eq!(c.len(), 1);
}

#[test]
fn remove_then_add_keeps_toggled_entries_intact() {
    let mut c = Collection::new(EntityKind::AddOn);
    c.add("/m/a.pk3".to_string()).unwrap();
    c.add("/m/b.pk3".to_string()).unwrap();
    c.add("/m/c.pk3".to_string()).unwrap();
    c.toggle(0).unwrap();
    c.toggle(2).unwrap();
    c.remove_entity(1).unwrap();
    c.add("/m/d.pk3".to_string()).unwrap();
    assert_eq!(c.len(), 3);
    assert_eq!(c.items()[0].asset.path, "/m/a.pk3");
    assert_eq!(c.items()[0].asset.enabled, false);
    assert_eq!(c.items()[1].asset.path, "/m/c.pk3");
    assert_eq!(c.items()[1].asset.enabled, false);
    assert_eq!(c.items()[2].asset.path, "/m/d.pk3");
    assert_eq!(c.items()[2].asset.enabled, true);
}

#[test]
fn set_path_rewrites_only_the_path() {
    let mut c = Collection::new(EntityKind::BaseData);
    c.add("/old/doom.wad".to_string()).unwrap();
    c.toggle(0).unwrap();
    c.set_path(0, "/new/doom.wad".to_string()).unwrap();
    assert_eq!(c.items()[0].asset.path, "/new/doom.wad");
    assert_eq!(c.items()[0].asset.enabled, false);
}

#[test]
fn set_path_error_cases() {
    let mut c = Collection::new(EntityKind::BaseData);
    c.add("/old/doom.wad".to_string()).unwrap();
    assert!(matches!(c.set_path(1, "/x/y.wad".to_string()), Err(CoreError::IndexOutOfRange)));
    assert!(matches!(c.set_path(0, "/x/".to_string()), Err(CoreError::InvalidPath)));
    assert_eq!(c.items()[0].asset.path, "/old/doom.wad");
}

#[test]
fn mutable_capability_accessors_reach_the_assets() {
    let mut c = Collection::new(EntityKind::BaseData);
    c.add("/g/doom.wad".to_string()).unwrap();
    c.entity_at_mut(0).enabled = false;
    assert!(!c.items()[0].asset.enabled);
    c.items_mut()[0].asset.enabled = true;
    assert!(c.items()[0].asset.enabled);
}

#[test]
fn labels_show_name_and_state() {
    let mut c = Collection::new(EntityKind::BaseData);
    c.add("/games/doom2.wad".to_string()).unwrap();
    c.add("/games/plutonia.wad".to_string()).unwrap();
    c.toggle(1).unwrap();
    let ls = c.labels();
    assert_eq!(
        ls,
        vec!["doom2.wad (Enabled)".to_string(), "plutonia.wad (Disabled)".to_string()]
    );
}
