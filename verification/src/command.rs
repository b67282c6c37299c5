//! The command lines issued on a target host, in the order of a deployment:
//! make a temporary directory, unpack the archive into it, rebuild from it,
//! remove it.

use vstd::prelude::*;
use vstd::string::StringExecFns;
use crate::cli::RebuildAction;

verus! {

/// A directory path as it is written into a command line: the text that the
/// `Debug` form of the path gives, in double quotes and with escapes.
pub uninterp spec fn debug_quoted(path: Seq<char>) -> Seq<char>;

/// Formats `std::path::Path` with `{:?}`. The result depends on the path
/// alone; nothing more is claimed of it.
#[verifier::external_body]
fn quote_path(path: &str) -> (quoted: String)
    ensures
        quoted@ == debug_quoted(path@),
{
    format!("{:?}", std::path::Path::new(path))
}

/// The command that makes the temporary directory and prints its path.
pub open spec fn make_tmpdir_line() -> Seq<char> {
    "mktemp -d"@
}

/// The command that unpacks an archive from its input into a directory,
/// given the directory as it is to stand in the command line.
pub open spec fn extract_line(quoted_dir: Seq<char>) -> Seq<char> {
    "tar -C "@ + quoted_dir + " -xf -"@
}

/// The command that rebuilds the system from the configuration in a
/// directory, given the directory as it is to stand in the command line.
pub open spec fn rebuild_line(action: RebuildAction, quoted_dir: Seq<char>) -> Seq<char> {
    "sudo nixos-rebuild "@ + action.name() + " --flake "@ + quoted_dir + " -L"@
}

/// The command that removes a directory and all it holds, given the
/// directory as it is to stand in the command line.
pub open spec fn cleanup_line(quoted_dir: Seq<char>) -> Seq<char> {
    "rm -r "@ + quoted_dir
}

/// Renders the command that makes the temporary directory.
pub fn make_tmpdir_command() -> (command: String)
    ensures
        command@ == make_tmpdir_line(),
{
    "mktemp -d".to_owned()
}

/// Renders the unpack command around a directory that is already quoted.
pub fn extract_command_with(quoted_dir: &str) -> (command: String)
    ensures
        command@ == extract_line(quoted_dir@),
{
    let mut command = "tar -C ".to_owned();
    command.append(quoted_dir);
    command.append(" -xf -");
    command
}

/// Renders the rebuild command around a directory that is already quoted.
pub fn rebuild_command_with(action: RebuildAction, quoted_dir: &str) -> (command: String)
    ensures
        command@ == rebuild_line(action, quoted_dir@),
{
    let mut command = "sudo nixos-rebuild ".to_owned();
    command.append(action.as_str());
    command.append(" --flake ");
    command.append(quoted_dir);
    command.append(" -L");
    command
}

/// Renders the removal command around a directory that is already quoted.
pub fn cleanup_command_with(quoted_dir: &str) -> (command: String)
    ensures
        command@ == cleanup_line(quoted_dir@),
{
    let mut command = "rm -r ".to_owned();
    command.append(quoted_dir);
    command
}

/// Renders the command that unpacks the archive into `tmpdir`.
pub fn extract_command(tmpdir: &str) -> (command: String)
    ensures
        command@ == extract_line(debug_quoted(tmpdir@)),
{
    let quoted = quote_path(tmpdir);
    extract_command_with(quoted.as_str())
}

/// Renders the command that rebuilds the system from `tmpdir`.
pub fn rebuild_command(action: RebuildAction, tmpdir: &str) -> (command: String)
    ensures
        command@ == rebuild_line(action, debug_quoted(tmpdir@)),
{
    let quoted = quote_path(tmpdir);
    rebuild_command_with(action, quoted.as_str())
}

/// Renders the command that removes `tmpdir`.
pub fn cleanup_command(tmpdir: &str) -> (command: String)
    ensures
        command@ == cleanup_line(debug_quoted(tmpdir@)),
{
    let quoted = quote_path(tmpdir);
    cleanup_command_with(quoted.as_str())
}

} // verus!
