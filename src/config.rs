//! The sidecar's own configuration, as far as this crate reads it.

use vstd::prelude::*;
use vstd::string::*;
use crate::command::{create_command, command_spec, strings_view, InvocationMode, ShellCommand};
use crate::text::{decode_lossy, utf8_lossy, ProcessOutput};

verus! {

/// Server settings; an absent field stays unset.
#[derive(Clone, Debug)]
pub struct ServerConfig {
    pub hostname: Option<String>,
    pub port: Option<u32>,
}

/// The sidecar's configuration.
#[derive(Clone, Debug)]
pub struct Config {
    pub server: Option<ServerConfig>,
}

/// The arguments that ask the sidecar for its configuration.
pub open spec fn config_query() -> Seq<Seq<char>> {
    seq![seq!['d', 'e', 'b', 'u', 'g'], seq!['c', 'o', 'n', 'f', 'i', 'g']]
}

/// The command that asks the sidecar at `sidecar_path` for its configuration.
pub fn config_command(sidecar_path: &str, mode: InvocationMode, shell: &str) -> (r: ShellCommand)
    ensures
        r.mode == mode,
        (r.program@, r.args_view()) == command_spec(sidecar_path@, config_query(), mode, shell@),
{
    let mut args: Vec<String> = Vec::new();
    args.push(String::from_str("debug"));
    args.push(String::from_str("config"));
    proof {
        reveal_strlit("debug");
        reveal_strlit("config");
        assert(args@[0]@ =~= config_query()[0]);
        assert(args@[1]@ =~= config_query()[1]);
        assert(strings_view(args@) =~= config_query());
    }
    create_command(sidecar_path, &args, mode, shell)
}

/// The text that holds the configuration: the sidecar's standard output,
/// where it started and exited with success; otherwise none, and the
/// configuration is absent.
pub fn config_text(outcome: &Result<ProcessOutput, String>) -> (r: Option<String>)
    ensures
        match outcome {
            Ok(o) if o.success => r is Some && r->0@ == utf8_lossy(o.stdout@),
            _ => r is None,
        },
{
    match outcome {
        Ok(o) => {
            if o.success {
                Some(decode_lossy(&o.stdout))
            } else {
                None
            }
        },
        Err(_) => None,
    }
}

} // verus!
