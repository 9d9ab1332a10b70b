//! System update model: the supported distributions, package categories,
//! and the rules that classify packages.  Running the package managers is
//! I/O and lives outside the library.

use vstd::prelude::*;
use crate::text;

verus! {

/// Supported Linux distribution families.
#[derive(Debug, Clone, Copy, PartialEq, Eq)]
pub enum Distro {
    Arch,
    SteamOS,
    Debian,
    Fedora,
    Unknown,
}

/// Rough category of an updatable package.
#[derive(Debug, Clone, Copy, PartialEq, Eq)]
pub enum PackageCategory {
    System,
    Graphics,
    Audio,
    Gaming,
    Application,
    Library,
}

/// A package available for update.
#[derive(Debug, Clone, PartialEq)]
pub struct UpdatePackage {
    pub name: String,
    pub current_version: String,
    pub new_version: String,
    pub category: PackageCategory,
    pub size: u64,
    pub critical: bool,
}

/// The result of checking for updates.
#[derive(Debug, Clone, PartialEq)]
pub struct UpdateCheckResult {
    pub distro: Distro,
    pub packages: Vec<UpdatePackage>,
    pub total_size: u64,
    pub requires_reboot: bool,
}

/// The result of installing updates.
#[derive(Debug, Clone, PartialEq)]
pub struct UpdateReport {
    pub total_packages: u32,
    pub installed_successfully: u32,
    pub failed: Vec<String>,
    pub requires_reboot: bool,
    pub duration_seconds: u64,
}

/// A package is critical when its lower-cased name contains any of the
/// kernel, graphics or display-stack markers.
pub open spec fn spec_is_critical(name: Seq<char>) -> bool {
    let l = text::lower_seq(name);
    ||| text::contains_seq(l, "linux"@)
    ||| text::contains_seq(l, "kernel"@)
    ||| text::contains_seq(l, "systemd"@)
    ||| text::contains_seq(l, "glibc"@)
    ||| text::contains_seq(l, "mesa"@)
    ||| text::contains_seq(l, "nvidia"@)
    ||| text::contains_seq(l, "amdgpu"@)
    ||| text::contains_seq(l, "vulkan"@)
    ||| text::contains_seq(l, "wayland"@)
    ||| text::contains_seq(l, "xorg"@)
    ||| text::contains_seq(l, "intel-media-driver"@)
}

/// Whether an update to this package warrants a reboot warning.
pub fn is_critical_package(name: &str) -> (r: bool)
    ensures
        r == spec_is_critical(name@),
{
    let cs = text::to_chars(name);
    let l = text::lowercase_chars(&cs);
    let p01 = text::to_chars("linux");
    let p02 = text::to_chars("kernel");
    let p03 = text::to_chars("systemd");
    let p04 = text::to_chars("glibc");
    let p05 = text::to_chars("mesa");
    let p06 = text::to_chars("nvidia");
    let p07 = text::to_chars("amdgpu");
    let p08 = text::to_chars("vulkan");
    let p09 = text::to_chars("wayland");
    let p10 = text::to_chars("xorg");
    let p11 = text::to_chars("intel-media-driver");
    text::contains_chars(&l, &p01) || text::contains_chars(&l, &p02) || text::contains_chars(
        &l,
        &p03,
    ) || text::contains_chars(&l, &p04) || text::contains_chars(&l, &p05) || text::contains_chars(
        &l,
        &p06,
    ) || text::contains_chars(&l, &p07) || text::contains_chars(&l, &p08) || text::contains_chars(
        &l,
        &p09,
    ) || text::contains_chars(&l, &p10) || text::contains_chars(&l, &p11)
}

/// The category of a package, decided on its lower-cased name: system,
/// graphics, audio and gaming markers in that order, then a `lib` prefix
/// or `-libs` marker, then application.
pub open spec fn spec_categorize(name: Seq<char>) -> PackageCategory {
    let l = text::lower_seq(name);
    if text::contains_seq(l, "linux"@) || text::contains_seq(l, "kernel"@) || text::contains_seq(
        l,
        "systemd"@,
    ) || text::contains_seq(l, "glibc"@) || text::contains_seq(l, "coreutils"@)
        || text::contains_seq(l, "base"@) {
        PackageCategory::System
    } else if text::contains_seq(l, "mesa"@) || text::contains_seq(l, "nvidia"@)
        || text::contains_seq(l, "amd"@) || text::contains_seq(l, "vulkan"@) || text::contains_seq(
        l,
        "xorg"@,
    ) || text::contains_seq(l, "wayland"@) || text::contains_seq(l, "drm"@) {
        PackageCategory::Graphics
    } else if text::contains_seq(l, "pipewire"@) || text::contains_seq(l, "pulseaudio"@)
        || text::contains_seq(l, "alsa"@) || text::contains_seq(l, "audio"@) {
        PackageCategory::Audio
    } else if text::contains_seq(l, "steam"@) || text::contains_seq(l, "proton"@)
        || text::contains_seq(l, "wine"@) || text::contains_seq(l, "dxvk"@) || text::contains_seq(
        l,
        "gamemode"@,
    ) || text::contains_seq(l, "mangohud"@) {
        PackageCategory::Gaming
    } else if (l.len() >= "lib"@.len() && l.subrange(0, "lib"@.len() as int) == "lib"@)
        || text::contains_seq(l, "-libs"@) {
        PackageCategory::Library
    } else {
        PackageCategory::Application
    }
}

/// Categorizes a package by its name.
pub fn categorize_package(name: &str) -> (r: PackageCategory)
    ensures
        r == spec_categorize(name@),
{
    let cs = text::to_chars(name);
    let l = text::lowercase_chars(&cs);
    let sys1 = text::to_chars("linux");
    let sys2 = text::to_chars("kernel");
    let sys3 = text::to_chars("systemd");
    let sys4 = text::to_chars("glibc");
    let sys5 = text::to_chars("coreutils");
    let sys6 = text::to_chars("base");
    if text::contains_chars(&l, &sys1) || text::contains_chars(&l, &sys2) || text::contains_chars(
        &l,
        &sys3,
    ) || text::contains_chars(&l, &sys4) || text::contains_chars(&l, &sys5)
        || text::contains_chars(&l, &sys6) {
        return PackageCategory::System;
    }
    let gfx1 = text::to_chars("mesa");
    let gfx2 = text::to_chars("nvidia");
    let gfx3 = text::to_chars("amd");
    let gfx4 = text::to_chars("vulkan");
    let gfx5 = text::to_chars("xorg");
    let gfx6 = text::to_chars("wayland");
    let gfx7 = text::to_chars("drm");
    if text::contains_chars(&l, &gfx1) || text::contains_chars(&l, &gfx2) || text::contains_chars(
        &l,
        &gfx3,
    ) || text::contains_chars(&l, &gfx4) || text::contains_chars(&l, &gfx5)
        || text::contains_chars(&l, &gfx6) || text::contains_chars(&l, &gfx7) {
        return PackageCategory::Graphics;
    }
    let aud1 = text::to_chars("pipewire");
    let aud2 = text::to_chars("pulseaudio");
    let aud3 = text::to_chars("alsa");
    let aud4 = text::to_chars("audio");
    if text::contains_chars(&l, &aud1) || text::contains_chars(&l, &aud2) || text::contains_chars(
        &l,
        &aud3,
    ) || text::contains_chars(&l, &aud4) {
        return PackageCategory::Audio;
    }
    let gam1 = text::to_chars("steam");
    let gam2 = text::to_chars("proton");
    let gam3 = text::to_chars("wine");
    let gam4 = text::to_chars("dxvk");
    let gam5 = text::to_chars("gamemode");
    let gam6 = text::to_chars("mangohud");
    if text::contains_chars(&l, &gam1) || text::contains_chars(&l, &gam2) || text::contains_chars(
        &l,
        &gam3,
    ) || text::contains_chars(&l, &gam4) || text::contains_chars(&l, &gam5)
        || text::contains_chars(&l, &gam6) {
        return PackageCategory::Gaming;
    }
    let lib_prefix = text::to_chars("lib");
    let lib_marker = text::to_chars("-libs");
    if text::starts_with_chars(&l, &lib_prefix) || text::contains_chars(&l, &lib_marker) {
        return PackageCategory::Library;
    }
    PackageCategory::Application
}

} // verus!
