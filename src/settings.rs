use vstd::prelude::*;

use crate::text::{contains_spec, hex_byte_spec, contains, push_hex_byte};

verus! {

/// Which of the two option sets governs the next installation.
#[derive(Clone, Copy, Debug, PartialEq, Eq, Structural)]
pub enum InstallMode {
    AllUsers,
    CurrentUser,
}

/// One boolean per optional value of the uninstall record.
#[derive(Clone, Copy, Debug, PartialEq, Eq, Structural)]
pub struct RegistryFields {
    pub create_comments: bool,
    pub create_display_icon: bool,
    pub create_display_name: bool,
    pub create_display_version: bool,
    pub create_estimated_size: bool,
    pub create_install_location: bool,
    pub create_no_modify: bool,
    pub create_no_remove: bool,
    pub create_no_repair: bool,
    pub create_publisher: bool,
    pub create_uninstall_string: bool,
}

/// The options of one installation scope.
#[derive(Clone, Debug)]
pub struct InstallSettings {
    pub create_desktop_shortcut: bool,
    pub create_registry_key: bool,
    pub create_start_menu_shortcut: bool,
    pub install_path: String,
    pub registry: RegistryFields,
}

/// Both scopes' options and the mode that selects one of them.
#[derive(Clone, Debug)]
pub struct Installation {
    pub install_mode: InstallMode,
    pub all_users: InstallSettings,
    pub current_user: InstallSettings,
}

/// The whole configuration: preferences, facts about the system and the
/// installation options.
#[derive(Clone, Debug)]
pub struct Settings {
    pub language: String,
    pub theme: String,
    pub minimize_to_tray_on_close: bool,
    pub color: String,
    pub debug: bool,
    pub elevated: bool,
    pub run_as_admin: bool,
    pub system_drive_letter: String,
    pub user_sid: String,
    pub username: String,
    pub installation: Installation,
}

/// A fact about the system that could not be had.
#[derive(Clone, Copy, Debug, PartialEq, Eq, Structural)]
pub enum EnvironmentError {
    /// The Windows directory is unknown or empty, so the system drive is too.
    MissingSystemDrive,
    /// The name of the current user is unknown.
    MissingUsername,
}

/// What the operating system reports, gathered before the settings are refreshed.
#[derive(Clone, Debug)]
pub struct SystemFacts {
    pub debug: bool,
    pub elevated: bool,
    pub user_sid: String,
    /// The compatibility-flags value stored for this executable, if any.
    pub layers_value: Option<String>,
    /// The Windows directory, e.g. `C:\Windows`.
    pub windir: Option<String>,
    pub username: Option<String>,
    /// The accent colour as the registry stores it, `0xAABBGGRR`.
    pub accent_color: u32,
}

impl Installation {
    pub open spec fn active_spec(&self) -> InstallSettings {
        match self.install_mode {
            InstallMode::AllUsers => self.all_users,
            InstallMode::CurrentUser => self.current_user,
        }
    }

    /// The option set that `install_mode` selects.
    pub fn active(&self) -> (r: &InstallSettings)
        ensures
            *r == self.active_spec(),
    {
        match self.install_mode {
            InstallMode::AllUsers => &self.all_users,
            InstallMode::CurrentUser => &self.current_user,
        }
    }
}

pub open spec fn all_users_default_spec(drive: Seq<char>) -> Seq<char> {
    drive + ":\\Program Files"@
}

pub open spec fn current_user_default_spec(drive: Seq<char>, user: Seq<char>) -> Seq<char> {
    drive + ":\\Users\\"@ + user + "\\AppData\\Local\\Programs"@
}

/// The system-wide default installation directory on drive `drive`.
pub fn default_all_users_path(drive: &str) -> (r: String)
    ensures
        r@ == all_users_default_spec(drive@),
{
    String::from_str(drive).concat(":\\Program Files")
}

/// The per-user default installation directory of `user` on drive `drive`.
pub fn default_current_user_path(drive: &str, user: &str) -> (r: String)
    ensures
        r@ == current_user_default_spec(drive@, user@),
{
    String::from_str(drive).concat(":\\Users\\").concat(user).concat("\\AppData\\Local\\Programs")
}

/// The path kept by a refresh: the old one, or the default where it was empty.
pub open spec fn refreshed_path(old: Seq<char>, default: Seq<char>) -> Seq<char> {
    if old.len() == 0 {
        default
    } else {
        old
    }
}

/// The drive letter of a Windows directory: its first character.
pub fn drive_letter(windir: &str) -> (r: Result<String, EnvironmentError>)
    ensures
        r is Ok <==> windir@.len() > 0,
        r is Ok ==> r->Ok_0@ == windir@.subrange(0, 1),
        r is Err ==> r->Err_0 == EnvironmentError::MissingSystemDrive,
{
    let n = windir.unicode_len();
    if n == 0 {
        Err(EnvironmentError::MissingSystemDrive)
    } else {
        Ok(String::from_str(windir.substring_char(0, 1)))
    }
}

/// Whether a compatibility-flags value asks that the program run as administrator.
pub fn requests_admin(layers_value: Option<&str>) -> (r: bool)
    ensures
        r == match layers_value {
            Some(v) => contains_spec(v@, "RUNASADMIN"@),
            None => false,
        },
{
    match layers_value {
        Some(v) => contains(v, "RUNASADMIN"),
        None => false,
    }
}

/// `#RRGGBB` for a colour that the registry stores as `0xAABBGGRR`.
pub open spec fn accent_hex_spec(value: u32) -> Seq<char> {
    seq!['#'] + hex_byte_spec((value & 0xff) as u8) + hex_byte_spec(((value >> 8u32) & 0xff) as u8)
        + hex_byte_spec(((value >> 16u32) & 0xff) as u8)
}

/// The accent colour as `#RRGGBB`, from its registry form `0xAABBGGRR`.
pub fn accent_color_to_hex(value: u32) -> (r: String)
    ensures
        r@ == accent_hex_spec(value),
{
    let mut s = String::from_str("#");
    proof {
        reveal_strlit("#");
    }
    push_hex_byte(&mut s, (value & 0xff) as u8);
    push_hex_byte(&mut s, ((value >> 8u32) & 0xff) as u8);
    push_hex_byte(&mut s, ((value >> 16u32) & 0xff) as u8);
    s
}

impl Settings {
    /// Fills each empty installation directory with its scope's default; a
    /// directory that is set is kept.
    pub fn update_install_paths(&mut self)
        ensures
            final(self).installation.all_users.install_path@ == refreshed_path(
                old(self).installation.all_users.install_path@,
                all_users_default_spec(old(self).system_drive_letter@),
            ),
            final(self).installation.current_user.install_path@ == refreshed_path(
                old(self).installation.current_user.install_path@,
                current_user_default_spec(old(self).system_drive_letter@, old(self).username@),
            ),
            *final(self) == (Settings {
                installation: Installation {
                    all_users: InstallSettings {
                        install_path: final(self).installation.all_users.install_path,
                        ..old(self).installation.all_users
                    },
                    current_user: InstallSettings {
                        install_path: final(self).installation.current_user.install_path,
                        ..old(self).installation.current_user
                    },
                    ..old(self).installation
                },
                ..*old(self)
            }),
    {
        if self.installation.all_users.install_path.as_str().is_empty() {
            self.installation.all_users.install_path = default_all_users_path(
                self.system_drive_letter.as_str(),
            );
        }
        if self.installation.current_user.install_path.as_str().is_empty() {
            self.installation.current_user.install_path = default_current_user_path(
                self.system_drive_letter.as_str(),
                self.username.as_str(),
            );
        }
    }
}


/// The options of a scope on first run: start-menu shortcut and uninstall
/// record with every value, no desktop shortcut.
pub fn default_install_settings(install_path: String) -> (r: InstallSettings)
    ensures
        r == (InstallSettings {
            create_desktop_shortcut: false,
            create_registry_key: true,
            create_start_menu_shortcut: true,
            install_path,
            registry: all_registry_fields(),
        }),
{
    InstallSettings {
        create_desktop_shortcut: false,
        create_registry_key: true,
        create_start_menu_shortcut: true,
        install_path,
        registry: RegistryFields {
            create_comments: true,
            create_display_icon: true,
            create_display_name: true,
            create_display_version: true,
            create_estimated_size: true,
            create_install_location: true,
            create_no_modify: true,
            create_no_remove: true,
            create_no_repair: true,
            create_publisher: true,
            create_uninstall_string: true,
        },
    }
}

/// Every value of the uninstall record selected.
pub open spec fn all_registry_fields() -> RegistryFields {
    RegistryFields {
        create_comments: true,
        create_display_icon: true,
        create_display_name: true,
        create_display_version: true,
        create_estimated_size: true,
        create_install_location: true,
        create_no_modify: true,
        create_no_remove: true,
        create_no_repair: true,
        create_publisher: true,
        create_uninstall_string: true,
    }
}

/// The system facts are usable: a Windows directory with a first character,
/// and a user name.
pub open spec fn environment_ok(windir: Option<Seq<char>>, username: Option<Seq<char>>) -> bool {
    windir is Some && windir->Some_0.len() > 0 && username is Some
}

/// The error for facts that are not usable: the drive is checked first.
pub open spec fn environment_error(windir: Option<Seq<char>>, username: Option<Seq<char>>) -> EnvironmentError {
    if !(windir is Some && windir->Some_0.len() > 0) {
        EnvironmentError::MissingSystemDrive
    } else {
        EnvironmentError::MissingUsername
    }
}

fn opt_as_str(o: &Option<String>) -> (r: Option<&str>)
    ensures
        str_opt_view(r) == string_opt_view(*o),
{
    match o {
        Some(v) => Some(v.as_str()),
        None => None,
    }
}

fn system_info(windir: Option<&str>, username: Option<&str>) -> (r: Result<(String, String), EnvironmentError>)
    ensures
        r is Ok <==> environment_ok(str_opt_view(windir), str_opt_view(username)),
        r is Ok ==> r->Ok_0.0@ == windir->Some_0@.subrange(0, 1) && r->Ok_0.1@ == username->Some_0@,
        r is Err ==> r->Err_0 == environment_error(str_opt_view(windir), str_opt_view(username)),
{
    let drive = match windir {
        Some(w) => drive_letter(w)?,
        None => return Err(EnvironmentError::MissingSystemDrive),
    };
    match username {
        Some(u) => Ok((drive, String::from_str(u))),
        None => Err(EnvironmentError::MissingUsername),
    }
}

impl Settings {
    /// A first-run configuration: English, system theme, installation for
    /// all users, and default directories on the system drive.
    pub fn create_default(debug: bool, elevated: bool, windir: Option<&str>, username: Option<&str>) -> (r: Result<Settings, EnvironmentError>)
        ensures
            r is Ok <==> environment_ok(str_opt_view(windir), str_opt_view(username)),
            r is Err ==> r->Err_0 == environment_error(str_opt_view(windir), str_opt_view(username)),
            r is Ok ==> ({
                let s = r->Ok_0;
                let drive = windir->Some_0@.subrange(0, 1);
                let user = username->Some_0@;
                &&& s.language@ == "en"@
                &&& s.theme@ == "system"@
                &&& !s.minimize_to_tray_on_close
                &&& s.color@.len() == 0
                &&& s.debug == debug
                &&& s.elevated == elevated
                &&& !s.run_as_admin
                &&& s.system_drive_letter@ == drive
                &&& s.user_sid@.len() == 0
                &&& s.username@ == user
                &&& s.installation.install_mode == InstallMode::AllUsers
                &&& s.installation.all_users == (InstallSettings {
                    install_path: s.installation.all_users.install_path,
                    ..s.installation.current_user
                })
                &&& s.installation.all_users.install_path@ == all_users_default_spec(drive)
                &&& s.installation.current_user.install_path@ == current_user_default_spec(drive, user)
                &&& !s.installation.current_user.create_desktop_shortcut
                &&& s.installation.current_user.create_registry_key
                &&& s.installation.current_user.create_start_menu_shortcut
                &&& s.installation.current_user.registry == all_registry_fields()
            }),
    {
        let (drive, user) = system_info(windir, username)?;
        let all_users = default_install_settings(default_all_users_path(drive.as_str()));
        let current_user = default_install_settings(default_current_user_path(drive.as_str(), user.as_str()));
        Ok(Settings {
            language: String::from_str("en"),
            theme: String::from_str("system"),
            minimize_to_tray_on_close: false,
            color: String::new(),
            debug,
            elevated,
            run_as_admin: false,
            system_drive_letter: drive,
            user_sid: String::new(),
            username: user,
            installation: Installation { install_mode: InstallMode::AllUsers, all_users, current_user },
        })
    }

    /// Re-derives the drive letter and the user name; on an error the
    /// settings are left as they were.
    pub fn update_system_info(&mut self, windir: Option<&str>, username: Option<&str>) -> (r: Result<(), EnvironmentError>)
        ensures
            r is Ok <==> environment_ok(str_opt_view(windir), str_opt_view(username)),
            r is Err ==> r->Err_0 == environment_error(str_opt_view(windir), str_opt_view(username)) && *final(self) == *old(self),
            r is Ok ==> final(self).system_drive_letter@ == windir->Some_0@.subrange(0, 1)
                && final(self).username@ == username->Some_0@
                && *final(self) == (Settings {
                    system_drive_letter: final(self).system_drive_letter,
                    username: final(self).username,
                    ..*old(self)
                }),
    {
        let (drive, user) = system_info(windir, username)?;
        self.system_drive_letter = drive;
        self.username = user;
        Ok(())
    }

    /// Refreshes every fact that comes from the system, then fills empty
    /// installation directories with their defaults. Preferences and set
    /// directories are kept. On an error the settings are left as they were.
    pub fn initialization(&mut self, facts: &SystemFacts) -> (r: Result<(), EnvironmentError>)
        ensures
            r is Ok <==> environment_ok(string_opt_view(facts.windir), string_opt_view(facts.username)),
            r is Err ==> r->Err_0 == environment_error(string_opt_view(facts.windir), string_opt_view(facts.username))
                && *final(self) == *old(self),
            r is Ok ==> ({
                let drive = facts.windir->Some_0@.subrange(0, 1);
                let user = facts.username->Some_0@;
                &&& final(self).debug == facts.debug
                &&& final(self).elevated == facts.elevated
                &&& final(self).user_sid@ == facts.user_sid@
                &&& final(self).run_as_admin == match facts.layers_value {
                    Some(v) => contains_spec(v@, "RUNASADMIN"@),
                    None => false,
                }
                &&& final(self).system_drive_letter@ == drive
                &&& final(self).username@ == user
                &&& final(self).color@ == accent_hex_spec(facts.accent_color)
                &&& final(self).installation.all_users.install_path@ == refreshed_path(
                    old(self).installation.all_users.install_path@,
                    all_users_default_spec(drive),
                )
                &&& final(self).installation.current_user.install_path@ == refreshed_path(
                    old(self).installation.current_user.install_path@,
                    current_user_default_spec(drive, user),
                )
                &&& final(self).installation == (Installation {
                    all_users: InstallSettings {
                        install_path: final(self).installation.all_users.install_path,
                        ..old(self).installation.all_users
                    },
                    current_user: InstallSettings {
                        install_path: final(self).installation.current_user.install_path,
                        ..old(self).installation.current_user
                    },
                    ..old(self).installation
                })
                &&& final(self).language == old(self).language
                &&& final(self).theme == old(self).theme
                &&& final(self).minimize_to_tray_on_close == old(self).minimize_to_tray_on_close
            }),
    {
        let (drive, user) = system_info(opt_as_str(&facts.windir), opt_as_str(&facts.username))?;
        self.debug = facts.debug;
        self.elevated = facts.elevated;
        self.user_sid = facts.user_sid.clone();
        self.run_as_admin = requests_admin(opt_as_str(&facts.layers_value));
        self.system_drive_letter = drive;
        self.username = user;
        self.color = accent_color_to_hex(facts.accent_color);
        self.update_install_paths();
        Ok(())
    }
}

/// The characters of an optional string slice.
pub open spec fn str_opt_view(o: Option<&str>) -> Option<Seq<char>> {
    match o {
        Some(v) => Some(v@),
        None => None,
    }
}

/// The characters of an optional string.
pub open spec fn string_opt_view(o: Option<String>) -> Option<Seq<char>> {
    match o {
        Some(v) => Some(v@),
        None => None,
    }
}

/// Switching the installation mode and refreshing the defaults again keeps
/// every directory that was set, in both scopes, whatever the system facts.
pub proof fn lemma_mode_switch_keeps_paths(s: Settings, mode: InstallMode, drive: Seq<char>, user: Seq<char>)
    requires
        s.installation.all_users.install_path@.len() > 0,
        s.installation.current_user.install_path@.len() > 0,
    ensures
        ({
            let t = Settings { installation: Installation { install_mode: mode, ..s.installation }, ..s };
            &&& refreshed_path(t.installation.all_users.install_path@, all_users_default_spec(drive))
                == s.installation.all_users.install_path@
            &&& refreshed_path(t.installation.current_user.install_path@, current_user_default_spec(drive, user))
                == s.installation.current_user.install_path@
        }),
{
}

} // verus!
