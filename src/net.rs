//! Network mode and the command line of the user-space network backend.
use vstd::prelude::*;

use crate::decimal::{decimal_string, decimal_text};
use crate::error::InitError;

verus! {

/// How the guest reaches the network; decided once per guest session.
#[derive(Copy, Clone, Eq, PartialEq, Debug, Structural)]
pub enum NetMode {
    /// Guest traffic is relayed by a user-space backend through a host socket.
    PASST,
    /// The guest runs its own network stack, configured by DHCP.
    TSI,
}

/// The one connector that a network mode runs.
#[derive(Copy, Clone, Eq, PartialEq, Debug, Structural)]
pub enum NetworkPath {
    /// Connect to the rendezvous socket that the host provides.
    ConnectToHost,
    /// Set the hostname and run the DHCP client inside the guest.
    ConfigureGuest,
}

impl NetMode {
    /// The connector that this mode runs: the host socket when traffic is
    /// host-proxied, the guest's own configuration otherwise. There is no
    /// fallback from one to the other.
    pub fn network_path(self) -> (r: NetworkPath)
        ensures
            self == NetMode::PASST <==> r == NetworkPath::ConnectToHost,
            self == NetMode::TSI <==> r == NetworkPath::ConfigureGuest,
    {
        match self {
            NetMode::PASST => NetworkPath::ConnectToHost,
            NetMode::TSI => NetworkPath::ConfigureGuest,
        }
    }
}

/// The texts of a list of strings.
pub open spec fn texts(v: Seq<String>) -> Seq<Seq<char>> {
    v.map_values(|s: String| s@)
}

/// A program to start and the arguments to hand it.
#[derive(Clone, Debug, PartialEq, Eq)]
pub struct BackendCommand {
    pub program: String,
    pub args: Vec<String>,
}

/// The arguments of the network backend: quiet, in the foreground, talking
/// over the inherited descriptor `fd`.
pub open spec fn passt_args(fd: int) -> Seq<Seq<char>> {
    seq!["-q"@, "-f"@, "--fd"@, decimal_text(fd)]
}

/// The name under which the network backend is looked up on the search path.
pub open spec fn passt_name() -> Seq<char> {
    "passt"@
}

/// The command that starts the network backend on the channel endpoint `fd`,
/// given where the search path lookup found the backend (`None`: nowhere).
/// A backend that was not found is a lookup failure, never a spawn failure.
pub fn passt_command(found: Option<String>, fd: i32) -> (r: Result<BackendCommand, InitError>)
    ensures
        found is None <==> r is Err,
        found is None ==> (r matches Err(InitError::LookupFailure { program: p }) && p@
            == passt_name()),
        found is Some ==> (r matches Ok(c) && c.program == found->0 && texts(c.args@)
            == passt_args(fd as int)),
{
    match found {
        None => Err(InitError::LookupFailure { program: String::from_str("passt") }),
        Some(program) => {
            let mut args: Vec<String> = Vec::new();
            args.push(String::from_str("-q"));
            args.push(String::from_str("-f"));
            args.push(String::from_str("--fd"));
            args.push(decimal_string(fd));
            assert(texts(args@) =~= passt_args(fd as int));
            Ok(BackendCommand { program, args })
        },
    }
}

} // verus!
