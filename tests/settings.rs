use installer::settings::{
    accent_color_to_hex, default_all_users_path, default_current_user_path, drive_letter,
    requests_admin, EnvironmentError, InstallMode, RegistryFields, Settings, SystemFacts,
};

fn base() -> Settings {
    Settings::create_default(false, false, Some(r"C:\Windows"), Some("alice")).expect("defaults")
}

#[test]
fn defaults_on_first_run() {
    let s = base();
    assert_eq!(s.language, "en");
    assert_eq!(s.theme, "system");
    assert_eq!(s.system_drive_letter, "C");
    assert_eq!(s.username, "alice");
    assert_eq!(s.installation.install_mode, InstallMode::AllUsers);
    assert_eq!(s.installation.all_users.install_path, r"C:\Program Files");
    assert_eq!(s.installation.current_user.install_path, r"C:\Users\alice\AppData\Local\Programs");
    assert!(s.installation.all_users.create_registry_key);
    assert!(s.installation.current_user.create_start_menu_shortcut);
    assert!(!s.installation.current_user.create_desktop_shortcut);
}

#[test]
fn defaults_need_environment() {
    assert_eq!(
        Settings::create_default(false, false, None, Some("a")).unwrap_err(),
        EnvironmentError::MissingSystemDrive
    );
    assert_eq!(
        Settings::create_default(false, false, Some(""), Some("a")).unwrap_err(),
        EnvironmentError::MissingSystemDrive
    );
    assert_eq!(
        Settings::create_default(false, false, Some(r"D:\Windows"), None).unwrap_err(),
        EnvironmentError::MissingUsername
    );
}

#[test]
fn default_paths() {
    assert_eq!(default_all_users_path("E"), r"E:\Program Files");
    assert_eq!(default_current_user_path("E", "bob"), r"E:\Users\bob\AppData\Local\Programs");
    assert_eq!(drive_letter(r"X:\Windows"), Ok("X".to_string()));
    assert_eq!(drive_letter(""), Err(EnvironmentError::MissingSystemDrive));
}

#[test]
fn update_fills_only_empty_paths() {
    let mut s = base();
    s.installation.all_users.install_path = r"D:\Custom".to_string();
    s.installation.current_user.install_path = String::new();
    s.update_install_paths();
    assert_eq!(s.installation.all_users.install_path, r"D:\Custom");
    assert_eq!(s.installation.current_user.install_path, r"C:\Users\alice\AppData\Local\Programs");
}

#[test]
fn mode_switch_keeps_custom_paths() {
    let mut s = base();
    s.installation.all_users.install_path = r"D:\Machine".to_string();
    s.installation.current_user.install_path = r"D:\Mine".to_string();
    s.installation.install_mode = InstallMode::CurrentUser;
    s.system_drive_letter = "Z".to_string();
    s.update_install_paths();
    assert_eq!(s.installation.all_users.install_path, r"D:\Machine");
    assert_eq!(s.installation.current_user.install_path, r"D:\Mine");
    s.installation.install_mode = InstallMode::AllUsers;
    s.update_install_paths();
    assert_eq!(s.installation.all_users.install_path, r"D:\Machine");
    assert_eq!(s.installation.current_user.install_path, r"D:\Mine");
}

#[test]
fn accent_color_formats() {
    assert_eq!(accent_color_to_hex(0xff112233), "#332211");
    assert_eq!(accent_color_to_hex(0x00a0b0c0), "#c0b0a0");
    assert_eq!(accent_color_to_hex(0), "#000000");
}

#[test]
fn admin_flag_detection() {
    assert!(requests_admin(Some("~ RUNASADMIN")));
    assert!(requests_admin(Some("~ HIGHDPIAWARE RUNASADMIN")));
    assert!(!requests_admin(Some("~ HIGHDPIAWARE")));
    assert!(!requests_admin(None));
}

#[test]
fn initialization_refreshes_facts() {
    let mut s = base();
    s.language = "de".to_string();
    s.installation.current_user.install_path = String::new();
    s.installation.all_users.registry = RegistryFields { create_publisher: false, ..s.installation.all_users.registry };
    let facts = SystemFacts {
        debug: true,
        elevated: true,
        user_sid: "S-1-5-21-9".to_string(),
        layers_value: Some("~ RUNASADMIN".to_string()),
        windir: Some(r"D:\Windows".to_string()),
        username: Some("bob".to_string()),
        accent_color: 0xff0080ff,
    };
    assert_eq!(s.initialization(&facts), Ok(()));
    assert!(s.debug && s.elevated && s.run_as_admin);
    assert_eq!(s.user_sid, "S-1-5-21-9");
    assert_eq!(s.system_drive_letter, "D");
    assert_eq!(s.username, "bob");
    assert_eq!(s.color, "#ff8000");
    assert_eq!(s.language, "de");
    assert_eq!(s.installation.all_users.install_path, r"C:\Program Files");
    assert_eq!(s.installation.current_user.install_path, r"D:\Users\bob\AppData\Local\Programs");
    assert!(!s.installation.all_users.registry.create_publisher);
}

#[test]
fn initialization_error_leaves_settings() {
    let mut s = base();
    let facts = SystemFacts {
        debug: true,
        elevated: true,
        user_sid: "S".to_string(),
        layers_value: None,
        windir: Some(r"D:\Windows".to_string()),
        username: None,
        accent_color: 0,
    };
    assert_eq!(s.initialization(&facts), Err(EnvironmentError::MissingUsername));
    assert!(!s.debug);
    assert_eq!(s.system_drive_letter, "C");
    let mut t = base();
    t.update_system_info(Some(r"Q:\Win"), Some("zed")).unwrap();
    assert_eq!(t.system_drive_letter, "Q");
    assert_eq!(t.username, "zed");
}
