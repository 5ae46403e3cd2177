use sulphur::duration::{u64_to_decimal, Duration, ToString};
use sulphur::menu::Menu;

#[test]
fn decimal_rendering() {
    assert_eq!(u64_to_decimal(0), "0");
    assert_eq!(u64_to_decimal(7), "7");
    assert_eq!(u64_to_decimal(42), "42");
    assert_eq!(u64_to_decimal(1000), "1000");
    assert_eq!(u64_to_decimal(u64::MAX), "18446744073709551615");
}

#[test]
fn zero_duration_shows_seconds_alone() {
    assert_eq!(Duration { secs: 0 }.to_string(), "0s");
}

#[test]
fn full_duration_shows_all_parts() {
    assert_eq!(Duration { secs: 3661 }.to_string(), "1h 1m 1s");
}

#[test]
fn zero_parts_are_left_out() {
    assert_eq!(Duration { secs: 3600 }.to_string(), "1h");
    assert_eq!(Duration { secs: 60 }.to_string(), "1m");
    assert_eq!(Duration { secs: 59 }.to_string(), "59s");
    assert_eq!(Duration { secs: 3601 }.to_string(), "1h 1s");
    assert_eq!(Duration { secs: 7325 }.to_string(), "2h 2m 5s");
}

#[test]
fn management_menus_offer_the_four_actions() {
    assert_eq!(
        Menu::IwadManagementMenu.options(),
        vec!["Add IWAD", "Toggle IWAD", "Remove IWAD", "Back"]
    );
    assert_eq!(
        Menu::ModManagementMenu.options(),
        vec!["Add Mod", "Toggle Mod", "Remove Mod", "Back"]
    );
}

#[test]
fn main_and_edit_menus_keep_their_lines() {
    assert_eq!(Menu::MainMenu.options().len(), 7);
    assert_eq!(Menu::MainMenu.options()[0], "Run Instance");
    assert_eq!(Menu::MainMenu.options()[6], "Save & Exit");
    assert_eq!(Menu::EditInstanceMenu.options().len(), 9);
    assert_eq!(Menu::GlobalSettingsMenu.options(), vec!["Set GZDoom Path", "Back"]);
    assert_eq!(
        Menu::AdditionalParamsMenu.options(),
        vec!["Add New Parameter", "Remove Parameter", "Back"]
    );
    assert_eq!(
        Menu::ImportExportMenu.options(),
        vec!["Export as .brimpkg", "Import .brimpkg", "Back"]
    );
}
