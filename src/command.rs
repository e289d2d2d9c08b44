use vstd::prelude::*;

verus! {

/// Flag that makes the language server talk over standard input and output.
pub const STDIO_FLAG: &'static str = "--stdio";

/// `rel` adjoined to the directory `base`, as `std::path::Path::join` forms it.
pub uninterp spec fn path_joined(base: Seq<char>, rel: Seq<char>) -> Seq<char>;

/// Relies on `std::path::Path::join`: the joined path is a function of the two
/// paths alone. Both are UTF-8, so the lossy conversion back loses nothing.
#[verifier::external_body]
fn join_path(base: &str, rel: &str) -> (r: String)
    ensures
        r@ == path_joined(base@, rel@),
{
    std::path::Path::new(base).join(rel).to_string_lossy().to_string()
}

/// How to start the language server process.
#[derive(Debug)]
pub struct LaunchCommand {
    pub command: String,
    pub args: Vec<String>,
    pub env: Vec<(String, String)>,
}

/// The command that runs the script at `server_path` (relative to the
/// directory `cwd`) with the Node runtime at `runtime_path`: the script's
/// absolute path, then the stdio flag, and no environment of its own.
pub fn launch_command(runtime_path: String, cwd: &str, server_path: &str) -> (r: LaunchCommand)
    ensures
        r.command@ == runtime_path@,
        r.args@.len() == 2,
        r.args@[0]@ == path_joined(cwd@, server_path@),
        r.args@[1]@ == STDIO_FLAG@,
        r.env@.len() == 0,
{
    let mut args: Vec<String> = Vec::new();
    args.push(join_path(cwd, server_path));
    args.push(STDIO_FLAG.to_string());
    LaunchCommand { command: runtime_path, args, env: Vec::new() }
}

} // verus!
