//! Shell resolution and platform-correct command lines.

use vstd::prelude::*;
use vstd::string::*;

verus! {

/// The shell used when the user's preference is unset or empty.
pub const DEFAULT_SHELL: &'static str = "/bin/sh";

/// How a target executable is started.
#[derive(Clone, Copy, Debug, PartialEq, Eq, Structural)]
pub enum InvocationMode {
    /// The executable is started itself, with its arguments verbatim.
    Direct,
    /// The executable is started through an interactive login shell.
    ShellWrapped,
}

impl InvocationMode {
    /// The mode for a platform: direct everywhere but on Unix-family systems.
    pub fn for_platform(unix: bool) -> (r: InvocationMode)
        ensures
            r == (if unix { InvocationMode::ShellWrapped } else { InvocationMode::Direct }),
    {
        if unix {
            InvocationMode::ShellWrapped
        } else {
            InvocationMode::Direct
        }
    }
}

/// A ready-to-run command: what is executed, with which arguments.
#[derive(Clone, Debug)]
pub struct ShellCommand {
    pub program: String,
    pub args: Vec<String>,
    pub mode: InvocationMode,
}

/// The characters of each string of a sequence.
pub open spec fn strings_view(v: Seq<String>) -> Seq<Seq<char>> {
    v.map_values(|s: String| s@)
}

impl ShellCommand {
    pub open spec fn args_view(&self) -> Seq<Seq<char>> {
        strings_view(self.args@)
    }
}

/// The script a wrapping shell runs: the quoted target, then every
/// positional parameter, each kept as one word.
pub open spec fn wrapped_script(target: Seq<char>) -> Seq<char> {
    seq!['"'] + target + seq!['"', ' ', '"', '$', '@', '"']
}

/// The arguments given to the shell before the target's own arguments.
pub open spec fn shell_prefix(target: Seq<char>) -> Seq<Seq<char>> {
    seq![seq!['-', 'i'], seq!['-', 'l'], seq!['-', 'c'], wrapped_script(target), seq!['-', '-']]
}

/// The command that runs `target` with `args` in the given mode.
pub open spec fn command_spec(
    target: Seq<char>,
    args: Seq<Seq<char>>,
    mode: InvocationMode,
    shell: Seq<char>,
) -> (Seq<char>, Seq<Seq<char>>) {
    match mode {
        InvocationMode::Direct => (target, args),
        InvocationMode::ShellWrapped => (shell, shell_prefix(target) + args),
    }
}

/// A wrapped command hands each of the target's arguments to the shell as
/// it is, after `--`, where `"$@"` passes each on as one word: spaces and `$`
/// included.
pub proof fn lemma_wrapped_args_verbatim(
    target: Seq<char>,
    args: Seq<Seq<char>>,
    shell: Seq<char>,
)
    ensures
        ({
            let (program, all) = command_spec(target, args, InvocationMode::ShellWrapped, shell);
            &&& program == shell
            &&& all.len() == args.len() + 5
            &&& all[4] == seq!['-', '-']
            &&& all.subrange(5, all.len() as int) == args
            &&& all[3] == wrapped_script(target)
        }),
{
    let all = command_spec(target, args, InvocationMode::ShellWrapped, shell).1;
    assert(all.subrange(5, all.len() as int) =~= args);
}

/// The shell to wrap commands in: the value of the user's shell preference,
/// or the default shell where it is unset or empty.
pub fn get_user_shell(preference: Option<String>) -> (r: String)
    ensures
        match preference {
            Some(s) if s@.len() > 0 => r@ == s@,
            _ => r@ == DEFAULT_SHELL@,
        },
{
    match preference {
        Some(s) => {
            if s.as_str().is_empty() {
                DEFAULT_SHELL.to_string()
            } else {
                s
            }
        },
        None => DEFAULT_SHELL.to_string(),
    }
}

fn owned(s: &str) -> (r: String)
    ensures
        r@ == s@,
{
    s.to_string()
}

/// Builds the command that runs `target` with `args`. Directly, the target
/// gets the arguments verbatim. Wrapped, the shell runs
/// `<shell> -i -l -c "<target>" "$@" -- <args...>`, so that the login
/// profile is loaded and each argument reaches the target as one word.
pub fn create_command(target: &str, args: &Vec<String>, mode: InvocationMode, shell: &str) -> (r:
    ShellCommand)
    ensures
        r.mode == mode,
        (r.program@, r.args_view()) == command_spec(target@, strings_view(args@), mode, shell@),
{
    match mode {
        InvocationMode::Direct => {
            ShellCommand { program: owned(target), args: args.clone(), mode }
        },
        InvocationMode::ShellWrapped => {
            let mut script = String::from_str("\"");
            script.append(target);
            script.append("\" \"$@\"");
            let mut all: Vec<String> = Vec::new();
            all.push(owned("-i"));
            all.push(owned("-l"));
            all.push(owned("-c"));
            all.push(script);
            all.push(owned("--"));
            proof {
                reveal_strlit("\"");
                reveal_strlit("\" \"$@\"");
                reveal_strlit("-i");
                reveal_strlit("-l");
                reveal_strlit("-c");
                reveal_strlit("--");
                assert(script@ =~= wrapped_script(target@));
                assert(all@.len() == 5);
                assert(all@[0]@ =~= seq!['-', 'i']);
                assert(all@[1]@ =~= seq!['-', 'l']);
                assert(all@[2]@ =~= seq!['-', 'c']);
                assert(all@[3]@ =~= wrapped_script(target@));
                assert(all@[4]@ =~= seq!['-', '-']);
                assert(strings_view(all@) =~= shell_prefix(target@) + strings_view(args@).take(0));
            }
            let mut i: usize = 0;
            while i < args.len()
                invariant
                    i <= args.len(),
                    strings_view(all@) == shell_prefix(target@) + strings_view(args@).take(i as int),
                decreases args.len() - i,
            {
                proof {
                    assert(strings_view(args@).take(i as int + 1) =~= strings_view(args@).take(i as int).push(args@[i as int]@));
                }
                let ghost before = all@;
                all.push(args[i].clone());
                proof {
                    assert(all@.drop_last() =~= before);
                    assert(strings_view(all@) =~= strings_view(before).push(args@[i as int]@));
                }
                i = i + 1;
            }
            proof {
                assert(strings_view(args@).take(args.len() as int) =~= strings_view(args@));
            }
            ShellCommand { program: owned(shell), args: all, mode }
        },
    }
}

} // verus!
