//! The login-time auto-start entry: with which name, program and arguments
//! the daemon is registered.

use auto_launch::{AutoLaunchBuilder, LinuxLaunchMode, MacOSLaunchMode};
use vstd::prelude::*;

verus! {

#[verifier::external_type_specification]
#[verifier::external_body]
pub struct ExAutoLaunch(auto_launch::AutoLaunch);

#[verifier::external_type_specification]
#[verifier::external_body]
pub struct ExAutoLaunchError(auto_launch::Error);

/// How the auto-start entry is installed on Linux.
#[derive(Clone, Copy, Debug, PartialEq, Eq, Structural)]
pub enum LinuxMode {
    /// A `.desktop` file in `~/.config/autostart/`.
    XdgAutostart,
    /// A systemd user service.
    Systemd,
}

/// How the auto-start entry is installed on macOS.
#[derive(Clone, Copy, Debug, PartialEq, Eq, Structural)]
pub enum MacMode {
    LaunchAgent,
    AppleScript,
    SMAppService,
}

/// What the auto-start entry is made of.
pub struct LaunchProfile {
    pub app_name: String,
    pub app_path: String,
    pub args: Vec<String>,
    pub linux_mode: LinuxMode,
    pub macos_mode: MacMode,
}

/// Why the auto-start entry could not be set up.
pub enum AutoLaunchError {
    Setup(auto_launch::Error),
}

/// An auto-start handle together with the profile it was built from and the
/// name, program path and arguments it reports.
pub struct AutoLaunchEntry {
    pub profile: LaunchProfile,
    pub handle: auto_launch::AutoLaunch,
    pub app_name: String,
    pub app_path: String,
    pub args: Vec<String>,
}

/// The auto-start profile of the daemon for the program at `app_path`: named
/// "Kucheat", started with the `daemon` command, installed through XDG autostart on
/// Linux and as a launch agent on macOS.
pub open spec fn is_daemon_profile(p: LaunchProfile, app_path: Seq<char>) -> bool {
    &&& p.app_name@ == "Kucheat"@
    &&& p.app_path@ == app_path
    &&& crate::config::texts(p.args@) == seq!["daemon"@]
    &&& p.linux_mode == LinuxMode::XdgAutostart
    &&& p.macos_mode == MacMode::LaunchAgent
}

/// The auto-start entry for the program at `app_path`: named "Kucheat",
/// started with the `daemon` command, installed through XDG autostart on Linux and as a
/// launch agent on macOS.
pub fn launch_profile(app_path: &str) -> (p: LaunchProfile)
    ensures
        is_daemon_profile(p, app_path@),
{
    let mut args: Vec<String> = Vec::new();
    args.push("daemon".to_owned());
    assert(crate::config::texts(args@) =~= seq!["daemon"@]);
    LaunchProfile {
        app_name: "Kucheat".to_owned(),
        app_path: app_path.to_owned(),
        args,
        linux_mode: LinuxMode::XdgAutostart,
        macos_mode: MacMode::LaunchAgent,
    }
}

/// Builds the auto-start handle for `profile` and reads back the name,
/// program path and arguments the handle reports; the profile comes back
/// with them.
///
/// Trusted: calls `auto_launch::AutoLaunchBuilder` with the profile's name,
/// path, arguments and launch modes, then `build`, then the handle's
/// `get_app_name`, `get_app_path` and `get_args`. The builder stores the path
/// and the arguments as given, and the name as given except for macOS's
/// AppleScript mode, which derives it from the path; the launch modes it is
/// given have no getter, and are stated through the profile handed back.
/// When building fails is not stated: that depends on the target platform
/// (on macOS with `SMAppService`, on the OS version).
#[verifier::external_body]
fn build_auto_launch(profile: LaunchProfile) -> (r: Result<AutoLaunchEntry, auto_launch::Error>)
    ensures
        r matches Ok(e) ==> {
            &&& e.profile == profile
            &&& profile.macos_mode != MacMode::AppleScript ==> e.app_name@ == profile.app_name@
            &&& e.app_path@ == profile.app_path@
            &&& crate::config::texts(e.args@) == crate::config::texts(profile.args@)
        },
{
    let linux = match profile.linux_mode {
        LinuxMode::XdgAutostart => LinuxLaunchMode::XdgAutostart,
        LinuxMode::Systemd => LinuxLaunchMode::Systemd,
    };
    let macos = match profile.macos_mode {
        MacMode::LaunchAgent => MacOSLaunchMode::LaunchAgent,
        MacMode::AppleScript => MacOSLaunchMode::AppleScript,
        MacMode::SMAppService => MacOSLaunchMode::SMAppService,
    };
    let handle = AutoLaunchBuilder::new().set_app_name(&profile.app_name).set_app_path(&profile.app_path)
        .set_args(&profile.args).set_linux_launch_mode(linux).set_macos_launch_mode(macos).build()?;
    let (app_name, app_path) = (handle.get_app_name().to_owned(), handle.get_app_path().to_owned());
    let args = handle.get_args().to_vec();
    Ok(AutoLaunchEntry { profile, handle, app_name, app_path, args })
}

/// The auto-start handle for the program at `app_path`, built from the
/// daemon's profile (see `launch_profile`), which comes back with it: named
/// "Kucheat", started with the `daemon` command, installed through XDG
/// autostart on Linux and as a launch agent on macOS; the handle reports
/// that name, the program path `app_path` and the arguments `daemon`.
/// Whether building succeeds is up to the auto-launch builder. Enabling or
/// disabling the entry is left to the caller.
pub fn get_auto_launch(app_path: &str) -> (r: Result<AutoLaunchEntry, AutoLaunchError>)
    ensures
        r matches Ok(entry) ==> {
            &&& is_daemon_profile(entry.profile, app_path@)
            &&& entry.app_name@ == "Kucheat"@
            &&& entry.app_path@ == app_path@
            &&& crate::config::texts(entry.args@) == seq!["daemon"@]
        },
{
    let profile = launch_profile(app_path);
    match build_auto_launch(profile) {
        Ok(entry) => Ok(entry),
        Err(e) => Err(AutoLaunchError::Setup(e)),
    }
}

} // verus!
