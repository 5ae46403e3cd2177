use vstd::prelude::*;

verus! {

/// The views of a sequence of string slices.
pub open spec fn views_of_strs(v: Seq<&str>) -> Seq<Seq<char>> {
    v.map_values(|s: &str| s@)
}

/// The fixed interactive menus of the launcher, one variant per screen.
#[derive(Clone, Copy, Debug, PartialEq, Eq, Structural)]
pub enum Menu {
    MainMenu,
    EditInstanceMenu,
    IwadManagementMenu,
    ModManagementMenu,
    GlobalSettingsMenu,
    AdditionalParamsMenu,
    ImportExportMenu,
}

/// The exact option lines of each menu, in display order.
pub open spec fn options_spec(m: Menu) -> Seq<Seq<char>> {
    match m {
        Menu::MainMenu => seq![
            "Run Instance"@,
            "Change List Order"@,
            "Create New Instance"@,
            "Edit Instance"@,
            "Import/Export Instance"@,
            "Configure Global Settings"@,
            "Save & Exit"@,
        ],
        Menu::EditInstanceMenu => seq![
            "Edit Name"@,
            "Edit IWADs"@,
            "Edit Mods"@,
            "Edit Save Directory"@,
            "Edit Additional Parameters"@,
            "See Full Command"@,
            "Remove Instance"@,
            "Save Changes"@,
            "Back"@,
        ],
        Menu::IwadManagementMenu => seq!["Add IWAD"@, "Toggle IWAD"@, "Remove IWAD"@, "Back"@],
        Menu::ModManagementMenu => seq!["Add Mod"@, "Toggle Mod"@, "Remove Mod"@, "Back"@],
        Menu::GlobalSettingsMenu => seq!["Set GZDoom Path"@, "Back"@],
        Menu::AdditionalParamsMenu => seq!["Add New Parameter"@, "Remove Parameter"@, "Back"@],
        Menu::ImportExportMenu => seq!["Export as .brimpkg"@, "Import .brimpkg"@, "Back"@],
    }
}

impl Menu {
    /// The option lines of this menu, exactly as `options_spec` lists
    /// them.
    pub fn options(&self) -> (r: Vec<&'static str>)
        ensures
            views_of_strs(r@) == options_spec(*self),
    {
        let mut v: Vec<&'static str> = Vec::new();
        match self {
            Menu::MainMenu => {
                v.push("Run Instance");
                v.push("Change List Order");
                v.push("Create New Instance");
                v.push("Edit Instance");
                v.push("Import/Export Instance");
                v.push("Configure Global Settings");
                v.push("Save & Exit");
            },
            Menu::EditInstanceMenu => {
                v.push("Edit Name");
                v.push("Edit IWADs");
                v.push("Edit Mods");
                v.push("Edit Save Directory");
                v.push("Edit Additional Parameters");
                v.push("See Full Command");
                v.push("Remove Instance");
                v.push("Save Changes");
                v.push("Back");
            },
            Menu::IwadManagementMenu => {
                v.push("Add IWAD");
                v.push("Toggle IWAD");
                v.push("Remove IWAD");
                v.push("Back");
            },
            Menu::ModManagementMenu => {
                v.push("Add Mod");
                v.push("Toggle Mod");
                v.push("Remove Mod");
                v.push("Back");
            },
            Menu::GlobalSettingsMenu => {
                v.push("Set GZDoom Path");
                v.push("Back");
            },
            Menu::AdditionalParamsMenu => {
                v.push("Add New Parameter");
                v.push("Remove Parameter");
                v.push("Back");
            },
            Menu::ImportExportMenu => {
                v.push("Export as .brimpkg");
                v.push("Import .brimpkg");
                v.push("Back");
            },
        }
        proof {
            assert(views_of_strs(v@) =~~= options_spec(*self));
        }
        v
    }
}

} // verus!
