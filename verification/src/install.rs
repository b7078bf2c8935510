//! What installing Wispr writes: the uinput rule, the systemd user service,
//! the launch agent, and the sentences that report it.
use vstd::prelude::*;
use crate::config::{first_file, first_flagged, opt_path, join_path, path_join};
use crate::error::{gives, invalid_state, is_invalid_state, Result, WisprError};
use crate::models::opt_view;
use crate::whisper::path_exists;
use crate::text::{concat2, concat3, str_eq, str_views, trim, trim_str};

verus! {

/// The group allowed to use the virtual keyboard.
pub const GROUP_NAME: &'static str = "wisprinput";
/// Where the uinput rule is written.
pub const UDEV_RULE_PATH: &'static str = "/etc/udev/rules.d/85-wispr-uinput.rules";
/// The launch agent's label.
pub const LAUNCH_AGENT_ID: &'static str = "io.wispr.wisprd";

/// The udev rule that gives the group access to uinput.
pub fn uinput_rule() -> (r: String)
    ensures
        r@ == "KERNEL==\"uinput\", GROUP=\"wisprinput\", MODE=\"0660\"\n"@,
{
    crate::text::owned("KERNEL==\"uinput\", GROUP=\"wisprinput\", MODE=\"0660\"\n")
}

/// The report of an installed uinput rule.
pub fn uinput_rule_message(user: &str) -> (r: String)
    ensures
        r@ == "Installed uinput rule at /etc/udev/rules.d/85-wispr-uinput.rules. Log out and back in so "@
            + user@ + " picks up the wisprinput group."@,
{
    concat3(
        "Installed uinput rule at /etc/udev/rules.d/85-wispr-uinput.rules. Log out and back in so ",
        user,
        " picks up the wisprinput group.",
    )
}

/// The systemd user unit that starts `wisprd` from `bin_dir`.
pub fn user_service_unit(bin_dir: &str) -> (r: String)
    ensures
        r@ == "[Unit]\nDescription=Wispr Dictation Daemon\nAfter=graphical-session.target\n\n[Service]\nType=simple\nExecStart="@
            + bin_dir@
            + "/wisprd\nRestart=on-failure\nRestartSec=2\n\n[Install]\nWantedBy=default.target\n"@,
{
    concat3(
        "[Unit]\nDescription=Wispr Dictation Daemon\nAfter=graphical-session.target\n\n[Service]\nType=simple\nExecStart=",
        bin_dir,
        "/wisprd\nRestart=on-failure\nRestartSec=2\n\n[Install]\nWantedBy=default.target\n",
    )
}

/// The report of a written user service.
pub fn user_service_message(path: &str) -> (r: String)
    ensures
        r@ == "Wrote "@ + path@
            + ". Run `systemctl --user daemon-reload && systemctl --user enable --now wisprd.service`."@,
{
    concat3(
        "Wrote ",
        path,
        ". Run `systemctl --user daemon-reload && systemctl --user enable --now wisprd.service`.",
    )
}

/// The launch agent that keeps `wisprd` from `bin_dir` running.
pub fn launch_agent_plist(bin_dir: &str) -> (r: String)
    ensures
        r@ == "<?xml version=\"1.0\" encoding=\"UTF-8\"?>\n<!DOCTYPE plist PUBLIC \"-//Apple//DTD PLIST 1.0//EN\" \"http://www.apple.com/DTDs/PropertyList-1.0.dtd\">\n<plist version=\"1.0\">\n<dict>\n    <key>Label</key>\n    <string>io.wispr.wisprd</string>\n    <key>EnvironmentVariables</key>\n    <dict>\n        <key>PATH</key>\n        <string>/opt/homebrew/bin:/usr/local/bin:/usr/bin:/bin:/usr/sbin:/sbin</string>\n    </dict>\n    <key>ProgramArguments</key>\n    <array>\n        <string>"@
            + join_path(bin_dir@, "wisprd"@)
            + "</string>\n    </array>\n    <key>RunAtLoad</key>\n    <true/>\n    <key>KeepAlive</key>\n    <true/>\n</dict>\n</plist>\n"@,
{
    let program = path_join(bin_dir, "wisprd");
    concat3(
        "<?xml version=\"1.0\" encoding=\"UTF-8\"?>\n<!DOCTYPE plist PUBLIC \"-//Apple//DTD PLIST 1.0//EN\" \"http://www.apple.com/DTDs/PropertyList-1.0.dtd\">\n<plist version=\"1.0\">\n<dict>\n    <key>Label</key>\n    <string>io.wispr.wisprd</string>\n    <key>EnvironmentVariables</key>\n    <dict>\n        <key>PATH</key>\n        <string>/opt/homebrew/bin:/usr/local/bin:/usr/bin:/bin:/usr/sbin:/sbin</string>\n    </dict>\n    <key>ProgramArguments</key>\n    <array>\n        <string>",
        program.as_str(),
        "</string>\n    </array>\n    <key>RunAtLoad</key>\n    <true/>\n    <key>KeepAlive</key>\n    <true/>\n</dict>\n</plist>\n",
    )
}

/// The file name of the launch agent.
pub fn launch_agent_file_name() -> (r: String)
    ensures
        r@ == "io.wispr.wisprd.plist"@,
{
    crate::text::owned("io.wispr.wisprd.plist")
}

/// The report of a loaded launch agent.
pub fn launch_agent_message(path: &str) -> (r: String)
    ensures
        r@ == "Installed and loaded "@ + path@ + "."@,
{
    concat3("Installed and loaded ", path, ".")
}

/// The report of removing the launch agent, depending on whether one was
/// installed.
pub fn remove_launch_agent_message(path: &str, existed: bool) -> (r: String)
    ensures
        existed ==> r@ == "Removed "@ + path@ + "."@,
        !existed ==> r@ == "No launch agent was installed at "@ + path@ + "."@,
{
    if existed {
        concat3("Removed ", path, ".")
    } else {
        concat3("No launch agent was installed at ", path, ".")
    }
}

/// The report of writing the default configuration.
pub fn default_config_message(config_path: &str) -> (r: String)
    ensures
        r@ == "Wrote default config under "@ + config_path@ + "."@,
{
    concat3("Wrote default config under ", config_path, ".")
}

/// The error of a setup command that failed, with how it exited.
pub fn command_failed(command: &str, status: &str) -> (e: WisprError)
    ensures
        e matches WisprError::Message(m) && m@ == command@ + " failed with status "@ + status@,
{
    WisprError::Message(concat3(command, " failed with status ", status))
}


// ---------------------------------------------------------------------------
// Where wisprd is
// ---------------------------------------------------------------------------

/// What `std::path::Path::parent` gives for a path: the path without its
/// last component, or `None` for a root or an empty path.
pub uninterp spec fn path_parent_of(path: Seq<char>) -> Option<Seq<char>>;

/// The parent of a path (`std::path::Path::parent`), as text; the result is
/// named, not stated.
#[verifier::external_body]
fn path_parent(path: &str) -> (r: Option<String>)
    ensures
        opt_view(r) == path_parent_of(path@),
{
    std::path::Path::new(path).parent().map(|p| p.to_string_lossy().into_owned())
}

/// The build directories under the working directory where a development
/// `wisprd` is looked for, in order.
pub open spec fn dev_dirs(cwd: Seq<char>) -> Seq<Seq<char>> {
    seq![
        join_path(cwd, "target/debug"@),
        join_path(cwd, "../target/debug"@),
        join_path(cwd, "../../target/debug"@),
    ]
}

/// The messages of the errors of `resolve_bin_dir_for_autostart`.
pub open spec fn no_parent_msg() -> Seq<char> {
    "WISPRD_PATH does not have a parent directory"@
}

/// The message of the error when `wisprd` is found nowhere.
pub open spec fn not_found_msg() -> Seq<char> {
    "could not locate wisprd for autostart installation"@
}

/// The working directory, or why it could not be read, as text.
pub open spec fn cwd_view(cwd: std::result::Result<String, String>) -> std::result::Result<Seq<char>, Seq<char>> {
    match cwd {
        Ok(c) => Ok(c@),
        Err(m) => Err(m@),
    }
}

/// The parent of the explicitly given path, when one is given.
pub open spec fn explicit_parent_of(explicit: Option<&str>) -> Option<Seq<char>> {
    match explicit {
        Some(e) => path_parent_of(e@),
        None => None,
    }
}

/// Where `wisprd` is taken from, given what the disk said: the parent of the
/// explicit path when that path exists (an error when it has none); else the
/// running program's directory when `wisprd` is beside it; else the first
/// build directory under the working directory that holds it. `Err` holds
/// the message of the invalid-state error.
pub open spec fn bin_dir_choice(
    explicit_exists: bool,
    explicit_parent: Option<Seq<char>>,
    exe_dir: Option<Seq<char>>,
    sibling_exists: bool,
    cwd: std::result::Result<Seq<char>, Seq<char>>,
    dev_exists: Seq<bool>,
) -> std::result::Result<Seq<char>, Seq<char>> {
    if explicit_exists {
        match explicit_parent {
            Some(p) => Ok(p),
            None => Err(no_parent_msg()),
        }
    } else if exe_dir is Some && sibling_exists {
        Ok(exe_dir->0)
    } else {
        match cwd {
            Err(m) => Err("could not determine current working directory: "@ + m),
            Ok(c) => match first_flagged(dev_dirs(c), dev_exists) {
                Some(d) => Ok(d),
                None => Err(not_found_msg()),
            },
        }
    }
}

/// The directory that holds `wisprd`, given whether the explicit path
/// exists and its parent, whether `wisprd` is beside the running program in
/// `exe_dir`, the working directory, and whether each build directory under
/// it holds `wisprd`.
pub fn choose_bin_dir(
    explicit_exists: bool,
    explicit_parent: Option<String>,
    exe_dir: Option<&str>,
    sibling_exists: bool,
    cwd: std::result::Result<String, String>,
    dev_exists: &Vec<bool>,
) -> (r: Result<String>)
    requires
        dev_exists@.len() == 3,
    ensures
        gives(
            r,
            bin_dir_choice(
                explicit_exists,
                opt_view(explicit_parent),
                opt_path(exe_dir),
                sibling_exists,
                cwd_view(cwd),
                dev_exists@,
            ),
        ),
{
    if explicit_exists {
        return match explicit_parent {
            Some(p) => Ok(p),
            None => Err(invalid_state("WISPRD_PATH does not have a parent directory")),
        };
    }
    if let Some(x) = exe_dir {
        if sibling_exists {
            return Ok(crate::text::owned(x));
        }
    }
    let c = match cwd {
        Ok(c) => c,
        Err(m) => {
            return Err(WisprError::InvalidState(concat2(
                "could not determine current working directory: ",
                m.as_str(),
            )));
        },
    };
    let mut candidates: Vec<String> = Vec::new();
    candidates.push(path_join(c.as_str(), "target/debug"));
    candidates.push(path_join(c.as_str(), "../target/debug"));
    candidates.push(path_join(c.as_str(), "../../target/debug"));
    assert(str_views(candidates@) =~= dev_dirs(c@));
    match first_file(&candidates, dev_exists) {
        Some(d) => Ok(d),
        None => Err(invalid_state("could not locate wisprd for autostart installation")),
    }
}

/// The directory that holds `wisprd`, for the autostart entry: the parent
/// of the explicitly given path when that exists; else the directory of the
/// running program when `wisprd` is beside it; else the first build
/// directory under the working directory that holds it. `exe_dir` is the
/// running program's directory, and `cwd` the working directory or why it
/// could not be read. Each place is probed; which of them hold `wisprd`
/// depends on the disk.
pub fn resolve_bin_dir_for_autostart(
    explicit: Option<&str>,
    exe_dir: Option<&str>,
    cwd: std::result::Result<String, String>,
) -> (r: Result<String>)
    ensures
        exists|explicit_exists: bool, sibling_exists: bool, dev_exists: Seq<bool>|
            (explicit_exists ==> explicit is Some) && (sibling_exists ==> exe_dir is Some) && dev_exists.len() == 3
                && gives(
                r,
                #[trigger] bin_dir_choice(
                    explicit_exists,
                    explicit_parent_of(explicit),
                    opt_path(exe_dir),
                    sibling_exists,
                    cwd_view(cwd),
                    dev_exists,
                ),
            ),
        explicit is None && exe_dir is None && cwd is Err ==> (r matches Err(e) && cwd matches Err(m)
            && is_invalid_state(e, "could not determine current working directory: "@ + m@)),
{
    let (explicit_exists, explicit_parent) = match explicit {
        Some(e) => (path_exists(e), path_parent(e)),
        None => (false, None),
    };
    let sibling_exists = match exe_dir {
        Some(x) => {
            let sibling = path_join(x, "wisprd");
            path_exists(sibling.as_str())
        },
        None => false,
    };
    let mut dev_exists: Vec<bool> = Vec::new();
    match &cwd {
        Ok(c) => {
            let dirs = [
                path_join(c.as_str(), "target/debug"),
                path_join(c.as_str(), "../target/debug"),
                path_join(c.as_str(), "../../target/debug"),
            ];
            for i in 0..3
                invariant
                    dev_exists@.len() == i,
            {
                let inner = path_join(dirs[i].as_str(), "wisprd");
                let found = path_exists(inner.as_str());
                dev_exists.push(found);
            }
        },
        Err(_) => {
            dev_exists.push(false);
            dev_exists.push(false);
            dev_exists.push(false);
        },
    }
    choose_bin_dir(explicit_exists, explicit_parent, exe_dir, sibling_exists, cwd, &dev_exists)
}

// ---------------------------------------------------------------------------
// Where things are installed
// ---------------------------------------------------------------------------

/// Whether the output of `id -u` names the root user: it reads `0` once
/// trimmed. No output (the command could not run, or printed no UTF-8)
/// means not root.
pub fn is_root_id(stdout: Option<&str>) -> (r: bool)
    ensures
        r == (stdout matches Some(s) && trim(s@) == "0"@),
{
    match stdout {
        Some(s) => {
            let t = trim_str(s);
            str_eq(t.as_str(), "0")
        },
        None => false,
    }
}

/// Setting up the uinput rule needs root.
pub fn require_root(is_root: bool) -> (r: Result<()>)
    ensures
        is_root ==> r is Ok,
        !is_root ==> (r matches Err(e) && is_invalid_state(
            e,
            "setup-uinput must be run as root (for example with sudo)"@,
        )),
{
    if is_root {
        Ok(())
    } else {
        Err(invalid_state("setup-uinput must be run as root (for example with sudo)"))
    }
}

/// The directory of the user's systemd units under the configuration
/// directory, or the error when there is none.
pub fn systemd_user_dir(config_dir: Option<&str>) -> (r: Result<String>)
    ensures
        match config_dir {
            Some(c) => r matches Ok(d) && d@ == join_path(c@, "systemd/user"@),
            None => r matches Err(e) && is_invalid_state(e, "could not determine config directory"@),
        },
{
    match config_dir {
        Some(c) => Ok(path_join(c, "systemd/user")),
        None => Err(invalid_state("could not determine config directory")),
    }
}

/// The user's launch agents directory under the home directory, or the
/// error when there is none.
pub fn launch_agents_dir(home: Option<&str>) -> (r: Result<String>)
    ensures
        match home {
            Some(h) => r matches Ok(d) && d@ == join_path(h@, "Library/LaunchAgents"@),
            None => r matches Err(e) && is_invalid_state(e, "could not determine home directory"@),
        },
{
    match home {
        Some(h) => Ok(path_join(h, "Library/LaunchAgents")),
        None => Err(invalid_state("could not determine home directory")),
    }
}

/// The error on systems without systemd user services.
pub fn no_user_service_error() -> (e: WisprError)
    ensures
        is_invalid_state(e, "systemd user service is only available on Linux"@),
{
    invalid_state("systemd user service is only available on Linux")
}

} // verus!
