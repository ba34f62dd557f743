//! Where the aliases live: a fixed file under the user's home
//! directory. Only the path text is computed here; the directory and
//! the file are made by the caller.

use vstd::prelude::*;
use vstd::string::StringExecFns;

verus! {

/// The configuration directory under a home directory.
pub open spec fn config_dir_of(home: Seq<char>) -> Seq<char> {
    home + "/.config/quick-aliases"@
}

/// The aliases file inside the configuration directory.
pub open spec fn config_file_of(home: Seq<char>) -> Seq<char> {
    config_dir_of(home) + "/aliases.json"@
}

/// The path of the configuration directory for this home directory.
pub fn config_dir_path(home: &str) -> (r: String)
    ensures
        r@ == config_dir_of(home@),
{
    let mut r = String::from_str(home);
    r.append("/.config/quick-aliases");
    r
}

/// The path of the aliases file for this home directory.
pub fn config_file_path(home: &str) -> (r: String)
    ensures
        r@ == config_file_of(home@),
{
    let mut r = config_dir_path(home);
    r.append("/aliases.json");
    r
}

} // verus!
