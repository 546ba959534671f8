use vstd::prelude::*;

use crate::registry::{RegistryField, selected_fields, selected_fields_spec};
use crate::settings::{InstallMode, InstallSettings, Settings};

verus! {

/// Where the uninstall record lives.
#[derive(Clone, Copy, Debug, PartialEq, Eq, Structural)]
pub enum RegistryHive {
    /// Machine-wide, for an installation for all users.
    LocalMachine,
    /// The current user's hive.
    CurrentUser,
}

/// What names an installed application.
#[derive(Clone, Debug)]
pub struct AppIdentity {
    /// The key name of the uninstall record.
    pub id: String,
    /// The file name of the shortcuts, without `.lnk`.
    pub name: String,
    /// The executable, relative to the installation directory.
    pub executable: String,
}

/// The uninstall record to create: its place and the values to write.
#[derive(Clone, Debug)]
pub struct RegistryRecord {
    pub hive: RegistryHive,
    pub key_path: String,
    pub fields: Vec<RegistryField>,
}

/// The directory of its own that an application gets below the scope's
/// installation directory: `base\id`.
pub open spec fn app_dir_spec(base: Seq<char>, id: Seq<char>) -> Seq<char> {
    join_spec(base, id)
}

/// The uninstall records present after installing `id` with `s`, as
/// (hive, key path) pairs.
pub open spec fn keys_after_install(keys: Set<(RegistryHive, Seq<char>)>, s: Settings, id: Seq<char>) -> Set<(RegistryHive, Seq<char>)> {
    if s.installation.active_spec().create_registry_key {
        keys.insert((hive_spec(s.installation.install_mode), uninstall_key_spec(id)))
    } else {
        keys
    }
}

/// The uninstall records present after uninstalling `id` with `s`.
pub open spec fn keys_after_uninstall(keys: Set<(RegistryHive, Seq<char>)>, s: Settings, id: Seq<char>) -> Set<(RegistryHive, Seq<char>)> {
    keys.remove((hive_spec(s.installation.install_mode), uninstall_key_spec(id)))
}

/// The state an uninstallation reaches from `Pending` when its three
/// removals end with `shortcuts`, `key` and `files`.
pub open spec fn uninstall_run(shortcuts: RemovalOutcome, key: RemovalOutcome, files: RemovalOutcome) -> UninstallState {
    UninstallState::Pending.next_spec(shortcuts).next_spec(shortcuts).next_spec(key).next_spec(files)
}

/// Everything an installation does, resolved from the active scope.
#[derive(Clone, Debug)]
pub struct InstallPlan {
    pub mode: InstallMode,
    /// The directory into which the archive is extracted.
    pub install_path: String,
    /// The installed executable that the shortcuts point at.
    pub target: String,
    pub registry: Option<RegistryRecord>,
    pub start_menu_link: Option<String>,
    pub desktop_link: Option<String>,
}

/// Everything an uninstallation removes, in the order given.
#[derive(Clone, Debug)]
pub struct UninstallPlan {
    pub start_menu_link: String,
    pub desktop_link: String,
    pub hive: RegistryHive,
    pub key_path: String,
    pub install_path: String,
}

pub open spec fn hive_spec(mode: InstallMode) -> RegistryHive {
    match mode {
        InstallMode::AllUsers => RegistryHive::LocalMachine,
        InstallMode::CurrentUser => RegistryHive::CurrentUser,
    }
}

pub open spec fn uninstall_key_spec(id: Seq<char>) -> Seq<char> {
    "SOFTWARE\\Microsoft\\Windows\\CurrentVersion\\Uninstall\\"@ + id
}

pub open spec fn start_menu_dir_spec(mode: InstallMode, drive: Seq<char>, user: Seq<char>) -> Seq<char> {
    match mode {
        InstallMode::AllUsers => drive + ":\\ProgramData\\Microsoft\\Windows\\Start Menu\\Programs"@,
        InstallMode::CurrentUser => drive + ":\\Users\\"@ + user
            + "\\AppData\\Roaming\\Microsoft\\Windows\\Start Menu\\Programs"@,
    }
}

pub open spec fn desktop_dir_spec(drive: Seq<char>, user: Seq<char>) -> Seq<char> {
    drive + ":\\Users\\"@ + user + "\\Desktop"@
}

/// `dir\name.lnk`.
pub open spec fn link_path_spec(dir: Seq<char>, name: Seq<char>) -> Seq<char> {
    dir + "\\"@ + name + ".lnk"@
}

/// `dir\file`.
pub open spec fn join_spec(dir: Seq<char>, file: Seq<char>) -> Seq<char> {
    dir + "\\"@ + file
}

/// The hive of the uninstall record of an installation scope.
pub fn registry_hive(mode: InstallMode) -> (r: RegistryHive)
    ensures
        r == hive_spec(mode),
{
    match mode {
        InstallMode::AllUsers => RegistryHive::LocalMachine,
        InstallMode::CurrentUser => RegistryHive::CurrentUser,
    }
}

/// The path of the uninstall record of `id`, below its hive.
pub fn uninstall_key_path(id: &str) -> (r: String)
    ensures
        r@ == uninstall_key_spec(id@),
{
    String::from_str("SOFTWARE\\Microsoft\\Windows\\CurrentVersion\\Uninstall\\").concat(id)
}

/// The Start Menu programs directory of a scope.
pub fn start_menu_dir(mode: InstallMode, drive: &str, user: &str) -> (r: String)
    ensures
        r@ == start_menu_dir_spec(mode, drive@, user@),
{
    match mode {
        InstallMode::AllUsers => String::from_str(drive).concat(
            ":\\ProgramData\\Microsoft\\Windows\\Start Menu\\Programs",
        ),
        InstallMode::CurrentUser => String::from_str(drive).concat(":\\Users\\").concat(user).concat(
            "\\AppData\\Roaming\\Microsoft\\Windows\\Start Menu\\Programs",
        ),
    }
}

/// The desktop directory of the current user.
pub fn desktop_dir(drive: &str, user: &str) -> (r: String)
    ensures
        r@ == desktop_dir_spec(drive@, user@),
{
    String::from_str(drive).concat(":\\Users\\").concat(user).concat("\\Desktop")
}

/// The shortcut file `name.lnk` in `dir`.
pub fn link_path(dir: &str, name: &str) -> (r: String)
    ensures
        r@ == link_path_spec(dir@, name@),
{
    String::from_str(dir).concat("\\").concat(name).concat(".lnk")
}

/// The file `file` in `dir`.
pub fn join(dir: &str, file: &str) -> (r: String)
    ensures
        r@ == join_spec(dir@, file@),
{
    String::from_str(dir).concat("\\").concat(file)
}

/// Resolves an installation from the settings: only the option set that
/// `install_mode` selects is read.
pub fn plan_installation(settings: &Settings, app: &AppIdentity) -> (r: InstallPlan)
    ensures
        ({
            let mode = settings.installation.install_mode;
            let opts = settings.installation.active_spec();
            let drive = settings.system_drive_letter@;
            let user = settings.username@;
            &&& r.mode == mode
            &&& r.install_path@ == app_dir_spec(opts.install_path@, app.id@)
            &&& r.target@ == join_spec(app_dir_spec(opts.install_path@, app.id@), app.executable@)
            &&& forall|keys: Set<(RegistryHive, Seq<char>)>| #[trigger] keys_after_install(keys, *settings, app.id@)
                == match r.registry {
                Some(rec) => keys.insert((rec.hive, rec.key_path@)),
                None => keys,
            }
            &&& (r.registry is Some <==> opts.create_registry_key)
            &&& (r.registry is Some ==> {
                let rec = r.registry->Some_0;
                &&& rec.hive == hive_spec(mode)
                &&& rec.key_path@ == uninstall_key_spec(app.id@)
                &&& rec.fields@ == selected_fields_spec(opts.registry)
            })
            &&& (r.start_menu_link is Some <==> opts.create_start_menu_shortcut)
            &&& (r.start_menu_link is Some ==> r.start_menu_link->Some_0@ == link_path_spec(
                start_menu_dir_spec(mode, drive, user),
                app.name@,
            ))
            &&& (r.desktop_link is Some <==> opts.create_desktop_shortcut)
            &&& (r.desktop_link is Some ==> r.desktop_link->Some_0@ == link_path_spec(
                desktop_dir_spec(drive, user),
                app.name@,
            ))
        }),
{
    let mode = settings.installation.install_mode;
    let opts: &InstallSettings = settings.installation.active();
    let drive = settings.system_drive_letter.as_str();
    let user = settings.username.as_str();
    let registry = if opts.create_registry_key {
        Some(
            RegistryRecord {
                hive: registry_hive(mode),
                key_path: uninstall_key_path(app.id.as_str()),
                fields: selected_fields(&opts.registry),
            },
        )
    } else {
        None
    };
    let start_menu_link = if opts.create_start_menu_shortcut {
        let dir = start_menu_dir(mode, drive, user);
        Some(link_path(dir.as_str(), app.name.as_str()))
    } else {
        None
    };
    let desktop_link = if opts.create_desktop_shortcut {
        let dir = desktop_dir(drive, user);
        Some(link_path(dir.as_str(), app.name.as_str()))
    } else {
        None
    };
    let dir = join(opts.install_path.as_str(), app.id.as_str());
    let target = join(dir.as_str(), app.executable.as_str());
    InstallPlan {
        mode,
        install_path: dir,
        target,
        registry,
        start_menu_link,
        desktop_link,
    }
}

/// Resolves an uninstallation: both shortcuts of the active scope, its
/// uninstall record and its installation directory. Removal tolerates
/// what is already gone, so every place is listed whatever the options say.
pub fn plan_uninstallation(settings: &Settings, app: &AppIdentity) -> (r: UninstallPlan)
    ensures
        ({
            let mode = settings.installation.install_mode;
            let opts = settings.installation.active_spec();
            let drive = settings.system_drive_letter@;
            let user = settings.username@;
            &&& r.start_menu_link@ == link_path_spec(start_menu_dir_spec(mode, drive, user), app.name@)
            &&& r.desktop_link@ == link_path_spec(desktop_dir_spec(drive, user), app.name@)
            &&& r.hive == hive_spec(mode)
            &&& r.key_path@ == uninstall_key_spec(app.id@)
            &&& r.install_path@ == app_dir_spec(opts.install_path@, app.id@)
            &&& forall|keys: Set<(RegistryHive, Seq<char>)>| #[trigger] keys_after_uninstall(keys, *settings, app.id@)
                == keys.remove((r.hive, r.key_path@))
        }),
{
    let mode = settings.installation.install_mode;
    let opts: &InstallSettings = settings.installation.active();
    let drive = settings.system_drive_letter.as_str();
    let user = settings.username.as_str();
    let start_dir = start_menu_dir(mode, drive, user);
    let desk_dir = desktop_dir(drive, user);
    UninstallPlan {
        start_menu_link: link_path(start_dir.as_str(), app.name.as_str()),
        desktop_link: link_path(desk_dir.as_str(), app.name.as_str()),
        hive: registry_hive(mode),
        key_path: uninstall_key_path(app.id.as_str()),
        install_path: join(opts.install_path.as_str(), app.id.as_str()),
    }
}

/// A step of an installation that can fail.
#[derive(Clone, Copy, Debug, PartialEq, Eq, Structural)]
pub enum InstallStage {
    Extracting,
    Registering,
    ShortcutProvisioning,
}

/// Where an installation stands.
#[derive(Clone, Copy, Debug, PartialEq, Eq, Structural)]
pub enum InstallState {
    Pending,
    Extracting,
    Registering,
    ShortcutProvisioning,
    Complete,
    Failed(InstallStage),
}

impl InstallState {
    /// The state after the current step; `ok` is its outcome, and a state
    /// without work ignores it.
    pub open spec fn next_spec(self, create_registry_key: bool, ok: bool) -> InstallState {
        match self {
            InstallState::Pending => InstallState::Extracting,
            InstallState::Extracting => if !ok {
                InstallState::Failed(InstallStage::Extracting)
            } else if create_registry_key {
                InstallState::Registering
            } else {
                InstallState::ShortcutProvisioning
            },
            InstallState::Registering => if ok {
                InstallState::ShortcutProvisioning
            } else {
                InstallState::Failed(InstallStage::Registering)
            },
            InstallState::ShortcutProvisioning => if ok {
                InstallState::Complete
            } else {
                InstallState::Failed(InstallStage::ShortcutProvisioning)
            },
            InstallState::Complete => InstallState::Complete,
            InstallState::Failed(s) => InstallState::Failed(s),
        }
    }

    /// Moves past the current step with its outcome `ok`.
    pub fn next(self, create_registry_key: bool, ok: bool) -> (r: InstallState)
        ensures
            r == self.next_spec(create_registry_key, ok),
    {
        match self {
            InstallState::Pending => InstallState::Extracting,
            InstallState::Extracting => if !ok {
                InstallState::Failed(InstallStage::Extracting)
            } else if create_registry_key {
                InstallState::Registering
            } else {
                InstallState::ShortcutProvisioning
            },
            InstallState::Registering => if ok {
                InstallState::ShortcutProvisioning
            } else {
                InstallState::Failed(InstallStage::Registering)
            },
            InstallState::ShortcutProvisioning => if ok {
                InstallState::Complete
            } else {
                InstallState::Failed(InstallStage::ShortcutProvisioning)
            },
            InstallState::Complete => InstallState::Complete,
            InstallState::Failed(s) => InstallState::Failed(s),
        }
    }

    /// Whether no step is left.
    pub fn is_terminal(&self) -> (r: bool)
        ensures
            r == (*self is Complete || *self is Failed),
    {
        match self {
            InstallState::Complete | InstallState::Failed(_) => true,
            _ => false,
        }
    }
}

/// How a removal went.
#[derive(Clone, Copy, Debug, PartialEq, Eq, Structural)]
pub enum RemovalOutcome {
    Removed,
    /// There was nothing to remove.
    NotFound,
    Failed,
}

/// A step of an uninstallation that can fail.
#[derive(Clone, Copy, Debug, PartialEq, Eq, Structural)]
pub enum UninstallStage {
    RemovingShortcuts,
    RemovingRegistryKey,
    RemovingFiles,
}

/// Where an uninstallation stands.
#[derive(Clone, Copy, Debug, PartialEq, Eq, Structural)]
pub enum UninstallState {
    Pending,
    RemovingShortcuts,
    RemovingRegistryKey,
    RemovingFiles,
    Complete,
    Failed(UninstallStage),
}

impl UninstallState {
    /// The state after the current step; a removal that found nothing
    /// counts as done.
    pub open spec fn next_spec(self, outcome: RemovalOutcome) -> UninstallState {
        let failed = outcome is Failed;
        match self {
            UninstallState::Pending => UninstallState::RemovingShortcuts,
            UninstallState::RemovingShortcuts => if failed {
                UninstallState::Failed(UninstallStage::RemovingShortcuts)
            } else {
                UninstallState::RemovingRegistryKey
            },
            UninstallState::RemovingRegistryKey => if failed {
                UninstallState::Failed(UninstallStage::RemovingRegistryKey)
            } else {
                UninstallState::RemovingFiles
            },
            UninstallState::RemovingFiles => if failed {
                UninstallState::Failed(UninstallStage::RemovingFiles)
            } else {
                UninstallState::Complete
            },
            UninstallState::Complete => UninstallState::Complete,
            UninstallState::Failed(s) => UninstallState::Failed(s),
        }
    }

    /// Moves past the current step with its outcome.
    pub fn next(self, outcome: RemovalOutcome) -> (r: UninstallState)
        ensures
            r == self.next_spec(outcome),
    {
        let failed = match outcome {
            RemovalOutcome::Failed => true,
            _ => false,
        };
        match self {
            UninstallState::Pending => UninstallState::RemovingShortcuts,
            UninstallState::RemovingShortcuts => if failed {
                UninstallState::Failed(UninstallStage::RemovingShortcuts)
            } else {
                UninstallState::RemovingRegistryKey
            },
            UninstallState::RemovingRegistryKey => if failed {
                UninstallState::Failed(UninstallStage::RemovingRegistryKey)
            } else {
                UninstallState::RemovingFiles
            },
            UninstallState::RemovingFiles => if failed {
                UninstallState::Failed(UninstallStage::RemovingFiles)
            } else {
                UninstallState::Complete
            },
            UninstallState::Complete => UninstallState::Complete,
            UninstallState::Failed(s) => UninstallState::Failed(s),
        }
    }

    /// Whether no step is left.
    pub fn is_terminal(&self) -> (r: bool)
        ensures
            r == (*self is Complete || *self is Failed),
    {
        match self {
            UninstallState::Complete | UninstallState::Failed(_) => true,
            _ => false,
        }
    }
}

/// With no uninstall record requested, in either scope, an installation
/// never reaches the registering step and leaves the uninstall records as
/// they were. An uninstallation whose record is absent leaves them as they
/// were too, and completes when its other removals succeed: a missing key
/// never makes it fail.
pub proof fn lemma_registry_record_optional(
    s: Settings,
    id: Seq<char>,
    keys: Set<(RegistryHive, Seq<char>)>,
    st: InstallState,
    ok: bool,
    u: UninstallState,
    shortcuts: RemovalOutcome,
    files: RemovalOutcome,
)
    ensures
        !s.installation.active_spec().create_registry_key ==> keys_after_install(keys, s, id) == keys,
        st.next_spec(false, ok) != InstallState::Registering,
        !keys.contains((hive_spec(s.installation.install_mode), uninstall_key_spec(id)))
            ==> keys_after_uninstall(keys, s, id) == keys,
        u.next_spec(RemovalOutcome::NotFound) is Failed ==> u is Failed,
        !(shortcuts is Failed) && !(files is Failed) ==> uninstall_run(shortcuts, RemovalOutcome::NotFound, files)
            == UninstallState::Complete,
{
    if !keys.contains((hive_spec(s.installation.install_mode), uninstall_key_spec(id))) {
        assert(keys.remove((hive_spec(s.installation.install_mode), uninstall_key_spec(id))) =~= keys);
    }
}

/// A failed extraction ends the installation: nothing after it is started.
pub proof fn lemma_failed_extraction_is_final(ck: bool, ok: bool)
    ensures
        InstallState::Extracting.next_spec(ck, false) == InstallState::Failed(InstallStage::Extracting),
        InstallState::Failed(InstallStage::Extracting).next_spec(ck, ok) == InstallState::Failed(
            InstallStage::Extracting,
        ),
{
}

} // verus!
