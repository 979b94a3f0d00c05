//! Where a standalone copy of the sidecar is installed.

use vstd::prelude::*;
use vstd::string::*;

verus! {

/// The install directory, relative to the user's home.
pub const CLI_INSTALL_DIR: &'static str = ".opencode/bin";

/// The file name of the installed binary.
pub const CLI_BINARY_NAME: &'static str = "opencode";

/// What follows the home directory in the install path.
pub open spec fn install_suffix() -> Seq<char> {
    seq!['/', '.', 'o', 'p', 'e', 'n', 'c', 'o', 'd', 'e', '/', 'b', 'i', 'n', '/']
        + seq!['o', 'p', 'e', 'n', 'c', 'o', 'd', 'e']
}

/// The install path under a home directory: `<home>/.opencode/bin/opencode`.
pub open spec fn install_path_of(home: Seq<char>) -> Seq<char> {
    home + install_suffix()
}

/// The install path, or `None` where the home directory is unknown. It
/// depends on the home directory alone.
pub fn get_cli_install_path(home: Option<String>) -> (r: Option<String>)
    ensures
        home is None <==> r is None,
        match (home, r) {
            (Some(h), Some(p)) => p@ == install_path_of(h@),
            _ => true,
        },
{
    match home {
        None => None,
        Some(h) => {
            let mut p = h;
            p.append("/");
            p.append(CLI_INSTALL_DIR);
            p.append("/");
            p.append(CLI_BINARY_NAME);
            proof {
                reveal_strlit("/");
                reveal_strlit(".opencode/bin");
                reveal_strlit("opencode");
                assert(p@ =~= install_path_of(h@));
            }
            Some(p)
        },
    }
}

/// Whether a standalone copy is installed: the install path is known and
/// something exists there (`exists` is what the filesystem said of it).
pub fn is_cli_installed(install_path: &Option<String>, exists: bool) -> (r: bool)
    ensures
        r == (install_path is Some && exists),
{
    install_path.is_some() && exists
}

} // verus!
