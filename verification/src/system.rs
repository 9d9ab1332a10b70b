//! System information shapes reported to the shell, and the fixed
//! default settings.  Probing the machine is I/O and lives outside the
//! library.

use vstd::prelude::*;

verus! {

/// Basic facts about the machine.
#[derive(Debug, Clone, PartialEq)]
pub struct SystemInfo {
    pub os_name: String,
    pub os_version: String,
    pub kernel_version: String,
    pub cpu_brand: String,
    pub total_memory: u64,
    pub hostname: String,
}

/// One mounted disk.
#[derive(Debug, Clone, PartialEq)]
pub struct DiskInfo {
    pub name: String,
    pub mount_point: String,
    pub total_space: u64,
    pub available_space: u64,
    pub used_space: u64,
    pub file_system: String,
    pub is_removable: bool,
}

/// User-facing settings.
#[derive(Debug, Clone, PartialEq)]
pub struct SettingsConfig {
    pub proton_version: String,
    pub mangohud_enabled: bool,
    pub default_install_path: String,
    pub wine_prefix_path: String,
}

/// The current settings.  No settings store exists yet, so this returns
/// the fixed defaults.
pub fn get_settings() -> (r: Result<SettingsConfig, String>)
    ensures
        r is Ok,
        r->Ok_0.proton_version@ == "GE-Proton8-32"@,
        !r->Ok_0.mangohud_enabled,
        r->Ok_0.default_install_path@ == "~/Games"@,
        r->Ok_0.wine_prefix_path@ == "~/.local/share/pixxiden/prefixes"@,
{
    Ok(
        SettingsConfig {
            proton_version: "GE-Proton8-32".to_owned(),
            mangohud_enabled: false,
            default_install_path: "~/Games".to_owned(),
            wine_prefix_path: "~/.local/share/pixxiden/prefixes".to_owned(),
        },
    )
}

/// Accepts a settings value.  No settings store exists yet, so this
/// always succeeds without persisting anything.
pub fn save_settings(config: SettingsConfig) -> (r: Result<(), String>)
    ensures
        r is Ok,
{
    let _ = config;
    Ok(())
}

} // verus!
