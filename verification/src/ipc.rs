//! Talking to the daemon: the commands a client sends and how their answers
//! are read.
use vstd::prelude::*;
use crate::config::{
    config_dir_under, join_path, path_join, platform_config_dir, wispr_dir, wispr_file,
};
use crate::models::opt_view;
use crate::error::{gives, invalid_state, is_invalid_state, Result, WisprError};

verus! {

/// The D-Bus name of the dictation service.
pub const DICTATION_SERVICE: &'static str = "io.wispr.Dictation";
/// The D-Bus object path of the dictation service.
pub const DICTATION_OBJECT_PATH: &'static str = "/io/wispr/Dictation";
/// The D-Bus interface of the dictation service.
pub const DICTATION_INTERFACE: &'static str = "io.wispr.Dictation1";

/// The path of the daemon's socket under a platform configuration
/// directory.
pub fn socket_path_under(base: Option<String>) -> (r: Result<String>)
    ensures
        gives(r, wispr_file(opt_view(base), "wisprd.sock"@)),
{
    match config_dir_under(base) {
        Ok(dir) => Ok(path_join(dir.as_str(), "wisprd.sock")),
        Err(e) => Err(e),
    }
}

/// The daemon's socket, in the Wispr configuration directory.
pub fn daemon_socket_path() -> (r: Result<String>)
    ensures
        exists|base: Option<Seq<char>>| gives(r, #[trigger] wispr_file(base, "wisprd.sock"@)),
{
    let base = platform_config_dir();
    let ghost b = opt_view(base);
    let r = socket_path_under(base);
    assert(gives(r, wispr_file(b, "wisprd.sock"@)));
    r
}

/// The daemon's socket sits beside `config.toml`: for one platform
/// configuration directory, both paths exist or neither does, and when they
/// do they are the two files' names joined onto the one Wispr configuration
/// directory.
pub proof fn law_socket_beside_config(base: Option<Seq<char>>)
    ensures
        wispr_file(base, "config.toml"@) is Ok <==> wispr_file(base, "wisprd.sock"@) is Ok,
        wispr_dir(base) matches Ok(d) ==> wispr_file(base, "config.toml"@) == Ok::<Seq<char>, Seq<char>>(
            join_path(d, "config.toml"@),
        ) && wispr_file(base, "wisprd.sock"@) == Ok::<Seq<char>, Seq<char>>(join_path(d, "wisprd.sock"@)),
{
}

/// What a client asks the daemon to do.
#[derive(Clone, Copy, Debug, PartialEq, Eq, Structural)]
pub enum DictationCommand {
    Toggle,
    Start,
    Stop,
    Status,
    OpenSettings,
}

/// A request to the daemon.
#[derive(Clone, Copy, Debug, PartialEq, Eq, Structural)]
pub struct DictationIpcRequest {
    pub command: DictationCommand,
}

/// The daemon's answer: whether the command succeeded, and its message.
#[derive(Clone, Debug, PartialEq, Eq)]
pub struct DictationIpcResponse {
    pub ok: bool,
    pub message: String,
}

/// A client of the daemon.
pub struct DictationProxy;

impl DictationProxy {
    /// A client.
    pub fn new() -> (r: Self) {
        DictationProxy
    }

    /// The request that sends `command`.
    pub fn request(&self, command: DictationCommand) -> (r: DictationIpcRequest)
        ensures
            r.command == command,
    {
        DictationIpcRequest { command }
    }
}

/// What a command's answer means to the client: the daemon's message when
/// it succeeded, an error with it when it failed, and an error when the
/// daemon answered nothing (`None`).
pub fn command_outcome(response: Option<DictationIpcResponse>) -> (r: Result<String>)
    ensures
        match response {
            None => r matches Err(e) && is_invalid_state(e, "daemon returned an empty IPC response"@),
            Some(resp) => if resp.ok {
                r matches Ok(m) && m@ == resp.message@
            } else {
                r matches Err(e) && is_invalid_state(e, resp.message@)
            },
        },
{
    match response {
        None => Err(invalid_state("daemon returned an empty IPC response")),
        Some(resp) => {
            if resp.ok {
                Ok(resp.message)
            } else {
                Err(WisprError::InvalidState(resp.message))
            }
        },
    }
}

} // verus!
