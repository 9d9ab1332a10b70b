//! Sudoers policy for unattended system updates: the status shape and the
//! generated policy text per distribution.  Writing the file and probing
//! the system live outside the library.

use vstd::prelude::*;
use vstd::string::StringExecFns;
use crate::system_updates::Distro;

verus! {

/// Whether the update policy is installed for the current user.
#[derive(Debug, Clone, PartialEq)]
pub struct SudoersStatus {
    pub configured: bool,
    pub distro: Distro,
    pub sudoers_file_exists: bool,
}

/// The policy text generated for Arch-family systems.
pub open spec fn spec_arch_content(u: Seq<char>) -> Seq<char> {
    "# Pixxiden - System update permissions\n# Generated automatically - DO NOT EDIT MANUALLY\n\n# Allow Pixxiden to check for updates\n"@
        + u + " ALL=(ALL) NOPASSWD: /usr/bin/pacman -Qu\n"@ + u
        + " ALL=(ALL) NOPASSWD: /usr/bin/pacman -Sy\n"@ + u
        + " ALL=(ALL) NOPASSWD: /usr/bin/pacman -Syy\n\n# Allow Pixxiden to install updates\n"@ + u
        + " ALL=(ALL) NOPASSWD: /usr/bin/pacman -Syu --noconfirm\n"@ + u
        + " ALL=(ALL) NOPASSWD: /usr/bin/pacman -Su --noconfirm\n\n# Allow Pixxiden to clean package cache\n"@
        + u + " ALL=(ALL) NOPASSWD: /usr/bin/pacman -Sc --noconfirm\n\n# Allow system reboot\n"@
        + u + " ALL=(ALL) NOPASSWD: /usr/bin/systemctl reboot\n"@ + u
        + " ALL=(ALL) NOPASSWD: /usr/bin/systemctl poweroff\n"@
}

/// The policy text generated for Debian-family systems.
pub open spec fn spec_debian_content(u: Seq<char>) -> Seq<char> {
    "# Pixxiden - System update permissions\n# Generated automatically - DO NOT EDIT MANUALLY\n\n# Allow Pixxiden to check for updates\n"@
        + u + " ALL=(ALL) NOPASSWD: /usr/bin/apt update\n"@ + u
        + " ALL=(ALL) NOPASSWD: /usr/bin/apt list --upgradable\n\n# Allow Pixxiden to install updates\n"@
        + u + " ALL=(ALL) NOPASSWD: /usr/bin/apt upgrade -y\n"@ + u
        + " ALL=(ALL) NOPASSWD: /usr/bin/apt full-upgrade -y\n"@ + u
        + " ALL=(ALL) NOPASSWD: /usr/bin/apt dist-upgrade -y\n\n# Allow Pixxiden to clean\n"@ + u
        + " ALL=(ALL) NOPASSWD: /usr/bin/apt autoremove -y\n"@ + u
        + " ALL=(ALL) NOPASSWD: /usr/bin/apt autoclean\n\n# Allow system reboot\n"@ + u
        + " ALL=(ALL) NOPASSWD: /usr/bin/systemctl reboot\n"@ + u
        + " ALL=(ALL) NOPASSWD: /usr/bin/systemctl poweroff\n"@
}

/// The policy text generated for Fedora systems.
pub open spec fn spec_fedora_content(u: Seq<char>) -> Seq<char> {
    "# Pixxiden - System update permissions\n# Generated automatically - DO NOT EDIT MANUALLY\n\n# Allow Pixxiden to check for updates\n"@
        + u + " ALL=(ALL) NOPASSWD: /usr/bin/dnf check-update\n\n# Allow Pixxiden to install updates\n"@
        + u + " ALL=(ALL) NOPASSWD: /usr/bin/dnf upgrade -y\n\n# Allow Pixxiden to clean\n"@ + u
        + " ALL=(ALL) NOPASSWD: /usr/bin/dnf autoremove -y\n"@ + u
        + " ALL=(ALL) NOPASSWD: /usr/bin/dnf clean all\n\n# Allow system reboot\n"@ + u
        + " ALL=(ALL) NOPASSWD: /usr/bin/systemctl reboot\n"@ + u
        + " ALL=(ALL) NOPASSWD: /usr/bin/systemctl poweroff\n"@
}

/// The policy text for a user on a distribution; unknown distributions
/// get no policy.
pub open spec fn spec_sudoers_content(u: Seq<char>, d: Distro) -> Seq<char> {
    match d {
        Distro::Arch => spec_arch_content(u),
        Distro::SteamOS => spec_arch_content(u),
        Distro::Debian => spec_debian_content(u),
        Distro::Fedora => spec_fedora_content(u),
        Distro::Unknown => Seq::empty(),
    }
}

/// Appends one `<user> <rule>` line to the policy text.
fn push_rule(out: &mut String, username: &str, rule: &str)
    ensures
        final(out)@ == old(out)@ + username@ + rule@,
{
    out.append(username);
    out.append(rule);
}

/// Generates the sudoers policy text for the user and distribution.
pub fn generate_sudoers_content(username: &str, distro: &Distro) -> (r: String)
    ensures
        r@ == spec_sudoers_content(username@, *distro),
{
    match distro {
        Distro::Arch | Distro::SteamOS => {
            let mut out: String =
                "# Pixxiden - System update permissions\n# Generated automatically - DO NOT EDIT MANUALLY\n\n# Allow Pixxiden to check for updates\n".to_owned();
            push_rule(&mut out, username, " ALL=(ALL) NOPASSWD: /usr/bin/pacman -Qu\n");
            push_rule(&mut out, username, " ALL=(ALL) NOPASSWD: /usr/bin/pacman -Sy\n");
            push_rule(
                &mut out,
                username,
                " ALL=(ALL) NOPASSWD: /usr/bin/pacman -Syy\n\n# Allow Pixxiden to install updates\n",
            );
            push_rule(
                &mut out,
                username,
                " ALL=(ALL) NOPASSWD: /usr/bin/pacman -Syu --noconfirm\n",
            );
            push_rule(
                &mut out,
                username,
                " ALL=(ALL) NOPASSWD: /usr/bin/pacman -Su --noconfirm\n\n# Allow Pixxiden to clean package cache\n",
            );
            push_rule(
                &mut out,
                username,
                " ALL=(ALL) NOPASSWD: /usr/bin/pacman -Sc --noconfirm\n\n# Allow system reboot\n",
            );
            push_rule(&mut out, username, " ALL=(ALL) NOPASSWD: /usr/bin/systemctl reboot\n");
            push_rule(&mut out, username, " ALL=(ALL) NOPASSWD: /usr/bin/systemctl poweroff\n");
            out
        },
        Distro::Debian => {
            let mut out: String =
                "# Pixxiden - System update permissions\n# Generated automatically - DO NOT EDIT MANUALLY\n\n# Allow Pixxiden to check for updates\n".to_owned();
            push_rule(&mut out, username, " ALL=(ALL) NOPASSWD: /usr/bin/apt update\n");
            push_rule(
                &mut out,
                username,
                " ALL=(ALL) NOPASSWD: /usr/bin/apt list --upgradable\n\n# Allow Pixxiden to install updates\n",
            );
            push_rule(&mut out, username, " ALL=(ALL) NOPASSWD: /usr/bin/apt upgrade -y\n");
            push_rule(&mut out, username, " ALL=(ALL) NOPASSWD: /usr/bin/apt full-upgrade -y\n");
            push_rule(
                &mut out,
                username,
                " ALL=(ALL) NOPASSWD: /usr/bin/apt dist-upgrade -y\n\n# Allow Pixxiden to clean\n",
            );
            push_rule(&mut out, username, " ALL=(ALL) NOPASSWD: /usr/bin/apt autoremove -y\n");
            push_rule(
                &mut out,
                username,
                " ALL=(ALL) NOPASSWD: /usr/bin/apt autoclean\n\n# Allow system reboot\n",
            );
            push_rule(&mut out, username, " ALL=(ALL) NOPASSWD: /usr/bin/systemctl reboot\n");
            push_rule(&mut out, username, " ALL=(ALL) NOPASSWD: /usr/bin/systemctl poweroff\n");
            out
        },
        Distro::Fedora => {
            let mut out: String =
                "# Pixxiden - System update permissions\n# Generated automatically - DO NOT EDIT MANUALLY\n\n# Allow Pixxiden to check for updates\n".to_owned();
            push_rule(
                &mut out,
                username,
                " ALL=(ALL) NOPASSWD: /usr/bin/dnf check-update\n\n# Allow Pixxiden to install updates\n",
            );
            push_rule(
                &mut out,
                username,
                " ALL=(ALL) NOPASSWD: /usr/bin/dnf upgrade -y\n\n# Allow Pixxiden to clean\n",
            );
            push_rule(&mut out, username, " ALL=(ALL) NOPASSWD: /usr/bin/dnf autoremove -y\n");
            push_rule(
                &mut out,
                username,
                " ALL=(ALL) NOPASSWD: /usr/bin/dnf clean all\n\n# Allow system reboot\n",
            );
            push_rule(&mut out, username, " ALL=(ALL) NOPASSWD: /usr/bin/systemctl reboot\n");
            push_rule(&mut out, username, " ALL=(ALL) NOPASSWD: /usr/bin/systemctl poweroff\n");
            out
        },
        Distro::Unknown => {
            let out = String::new();
            out
        },
    }
}

} // verus!
