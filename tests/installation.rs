use installer::engine::{
    plan_installation, plan_uninstallation, AppIdentity, InstallStage, InstallState, RegistryHive,
    RemovalOutcome, UninstallStage, UninstallState,
};
use installer::registry::{selected_fields, RegistryField};
use installer::settings::{InstallMode, InstallSettings, Installation, RegistryFields, Settings};

fn fields(on: bool) -> RegistryFields {
    RegistryFields {
        create_comments: on,
        create_display_icon: on,
        create_display_name: on,
        create_display_version: on,
        create_estimated_size: on,
        create_install_location: on,
        create_no_modify: on,
        create_no_remove: on,
        create_no_repair: on,
        create_publisher: on,
        create_uninstall_string: on,
    }
}

fn scope(path: &str, key: bool, start: bool, desk: bool, registry: RegistryFields) -> InstallSettings {
    InstallSettings {
        create_desktop_shortcut: desk,
        create_registry_key: key,
        create_start_menu_shortcut: start,
        install_path: path.to_string(),
        registry,
    }
}

fn settings(mode: InstallMode, all_users: InstallSettings, current_user: InstallSettings) -> Settings {
    Settings {
        language: "en".to_string(),
        theme: "system".to_string(),
        minimize_to_tray_on_close: false,
        color: String::new(),
        debug: false,
        elevated: false,
        run_as_admin: false,
        system_drive_letter: "C".to_string(),
        user_sid: "S-1-5-21-1".to_string(),
        username: "alice".to_string(),
        installation: Installation { install_mode: mode, all_users, current_user },
    }
}

fn app() -> AppIdentity {
    AppIdentity { id: "demo".to_string(), name: "Demo".to_string(), executable: "demo.exe".to_string() }
}

#[test]
fn all_users_record_omits_no_remove() {
    let mut reg = fields(true);
    reg.create_no_remove = false;
    let s = settings(
        InstallMode::AllUsers,
        scope(r"C:\Program Files\Demo", true, true, false, reg),
        scope(r"C:\Users\alice\AppData\Local\Programs\Demo", false, false, false, fields(false)),
    );
    let plan = plan_installation(&s, &app());
    let rec = plan.registry.expect("record");
    assert_eq!(rec.hive, RegistryHive::LocalMachine);
    assert_eq!(rec.key_path, r"SOFTWARE\Microsoft\Windows\CurrentVersion\Uninstall\demo");
    let names: Vec<&str> = rec.fields.iter().map(|f| f.value_name()).collect();
    assert_eq!(
        names,
        vec![
            "Comments",
            "DisplayIcon",
            "DisplayName",
            "DisplayVersion",
            "EstimatedSize",
            "InstallLocation",
            "NoModify",
            "NoRepair",
            "Publisher",
            "UninstallString",
        ]
    );
    assert!(!rec.fields.contains(&RegistryField::NoRemove));
    assert_eq!(plan.install_path, r"C:\Program Files\Demo\demo");
    assert_eq!(plan.target, r"C:\Program Files\Demo\demo\demo.exe");
    assert_eq!(
        plan.start_menu_link.as_deref(),
        Some(r"C:\ProgramData\Microsoft\Windows\Start Menu\Programs\Demo.lnk")
    );
    assert_eq!(plan.desktop_link, None);
}

#[test]
fn current_user_files_only() {
    let s = settings(
        InstallMode::CurrentUser,
        scope(r"C:\Program Files", true, true, true, fields(true)),
        scope(r"C:\Users\alice\AppData\Local\Programs", false, false, false, fields(true)),
    );
    let plan = plan_installation(&s, &app());
    assert!(plan.registry.is_none());
    assert!(plan.start_menu_link.is_none());
    assert!(plan.desktop_link.is_none());
    assert_eq!(plan.install_path, r"C:\Users\alice\AppData\Local\Programs\demo");
    assert_eq!(plan.mode, InstallMode::CurrentUser);
}

#[test]
fn current_user_shortcut_locations() {
    let s = settings(
        InstallMode::CurrentUser,
        scope(r"D:\Apps", false, false, false, fields(false)),
        scope(r"C:\Users\alice\Apps", true, true, true, fields(false)),
    );
    let plan = plan_installation(&s, &app());
    assert_eq!(
        plan.start_menu_link.as_deref(),
        Some(r"C:\Users\alice\AppData\Roaming\Microsoft\Windows\Start Menu\Programs\Demo.lnk")
    );
    assert_eq!(plan.desktop_link.as_deref(), Some(r"C:\Users\alice\Desktop\Demo.lnk"));
    let rec = plan.registry.expect("record");
    assert_eq!(rec.hive, RegistryHive::CurrentUser);
    assert!(rec.fields.is_empty());
}

#[test]
fn no_key_for_either_scope_without_registry_option() {
    for mode in [InstallMode::AllUsers, InstallMode::CurrentUser] {
        let s = settings(
            mode,
            scope(r"C:\A", false, true, true, fields(true)),
            scope(r"C:\B", false, true, true, fields(true)),
        );
        assert!(plan_installation(&s, &app()).registry.is_none());
        let mut st = InstallState::Pending;
        while !st.is_terminal() {
            st = st.next(false, true);
            assert_ne!(st, InstallState::Registering);
        }
        assert_eq!(st, InstallState::Complete);
    }
}

#[test]
fn uninstall_with_absent_key_succeeds() {
    let mut st = UninstallState::Pending;
    let mut seen = Vec::new();
    while !st.is_terminal() {
        st = st.next(RemovalOutcome::NotFound);
        seen.push(st);
    }
    assert_eq!(
        seen,
        vec![
            UninstallState::RemovingShortcuts,
            UninstallState::RemovingRegistryKey,
            UninstallState::RemovingFiles,
            UninstallState::Complete,
        ]
    );
    assert_eq!(
        UninstallState::RemovingRegistryKey.next(RemovalOutcome::Failed),
        UninstallState::Failed(UninstallStage::RemovingRegistryKey)
    );
}

#[test]
fn uninstall_plan_places() {
    let s = settings(
        InstallMode::AllUsers,
        scope(r"C:\Program Files\Demo", false, false, false, fields(false)),
        scope(r"C:\B", true, true, true, fields(true)),
    );
    let plan = plan_uninstallation(&s, &app());
    assert_eq!(plan.hive, RegistryHive::LocalMachine);
    assert_eq!(plan.key_path, r"SOFTWARE\Microsoft\Windows\CurrentVersion\Uninstall\demo");
    assert_eq!(plan.install_path, r"C:\Program Files\Demo\demo");
    assert_eq!(plan.start_menu_link, r"C:\ProgramData\Microsoft\Windows\Start Menu\Programs\Demo.lnk");
    assert_eq!(plan.desktop_link, r"C:\Users\alice\Desktop\Demo.lnk");
}

#[test]
fn failed_extraction_stops_everything() {
    let st = InstallState::Pending.next(true, true);
    assert_eq!(st, InstallState::Extracting);
    let st = st.next(true, false);
    assert_eq!(st, InstallState::Failed(InstallStage::Extracting));
    assert!(st.is_terminal());
    assert_eq!(st.next(true, true), InstallState::Failed(InstallStage::Extracting));
}

#[test]
fn install_stages_in_order() {
    let mut st = InstallState::Pending;
    let mut seen = Vec::new();
    while !st.is_terminal() {
        st = st.next(true, true);
        seen.push(st);
    }
    assert_eq!(
        seen,
        vec![
            InstallState::Extracting,
            InstallState::Registering,
            InstallState::ShortcutProvisioning,
            InstallState::Complete,
        ]
    );
    assert_eq!(
        InstallState::Registering.next(true, false),
        InstallState::Failed(InstallStage::Registering)
    );
    assert_eq!(
        InstallState::ShortcutProvisioning.next(true, false),
        InstallState::Failed(InstallStage::ShortcutProvisioning)
    );
}

#[test]
fn toggling_one_field_adds_only_it() {
    let base = fields(false);
    assert!(selected_fields(&base).is_empty());
    let mut one = base;
    one.create_publisher = true;
    assert_eq!(selected_fields(&one), vec![RegistryField::Publisher]);
    let mut two = one;
    two.create_estimated_size = true;
    assert_eq!(selected_fields(&two), vec![RegistryField::EstimatedSize, RegistryField::Publisher]);
    assert_eq!(selected_fields(&fields(true)).len(), 11);
}

#[test]
fn inactive_scope_does_not_leak() {
    let s = settings(
        InstallMode::AllUsers,
        scope(r"C:\A", true, false, false, fields(false)),
        scope(r"C:\B", true, true, true, fields(true)),
    );
    let plan = plan_installation(&s, &app());
    assert!(plan.registry.expect("record").fields.is_empty());
    assert!(plan.start_menu_link.is_none());
    assert!(plan.desktop_link.is_none());
}

#[test]
fn value_kinds() {
    assert!(RegistryField::EstimatedSize.is_number());
    assert!(RegistryField::NoRemove.is_number());
    assert!(!RegistryField::DisplayName.is_number());
    assert_eq!(RegistryField::UninstallString.value_name(), "UninstallString");
}
