use vstd::prelude::*;

use crate::engine::AppIdentity;
use crate::settings::Settings;

verus! {

/// A request from the user interface.
#[derive(Clone, Debug)]
pub enum Command {
    LoadSettings,
    Installation { archive_path: String, app: AppIdentity },
    /// Removes an installation, named by the identity it was installed
    /// under: its uninstall record, shortcuts and directory follow from it
    /// and the current settings.
    Uninstallation { app: AppIdentity },
    Elevate { revert: bool },
    ValidatePath { path: String },
    SaveSettings { settings: Settings },
    GetArchiveContent { path: String },
}

} // verus!
