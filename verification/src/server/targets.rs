//! Discovery of the editor endpoints that the configured socket path
//! addresses.

use vstd::prelude::*;
use vstd::string::*;
use crate::config::{path_exists, SocketGlobMode};

verus! {

/// `glob::glob`, with its iterator run to the end: the pattern error, or
/// one entry for each path that matched, in the order in which the iterator
/// yields them; an entry is the path as text (lossily, where it is not
/// UTF-8) or the text of the error met while reading the directory. What
/// matches depends on the filesystem, so nothing is claimed of the answer.
#[verifier::external_body]
fn glob_matches(pattern: &str) -> (found: Result<Vec<Result<String, String>>, String>) {
    match glob::glob(pattern) {
        Ok(paths) => Ok(
            paths.map(
                |entry|
                    match entry {
                        Ok(path) => Ok(path.to_string_lossy().to_string()),
                        Err(e) => Err(e.to_string()),
                    },
            ).collect(),
        ),
        Err(e) => Err(e.to_string()),
    }
}

/// The glob pattern that finds the sockets for a socket path in a given
/// mode: the sockets named `nvim-mcp.*.sock` in a directory, the path
/// itself where it is a pattern, and none for a single file.
pub open spec fn target_pattern_spec(socket_path: Seq<char>, socket_mode: SocketGlobMode) -> Option<
    Seq<char>,
> {
    match socket_mode {
        SocketGlobMode::Directory => Some(socket_path + "/nvim-mcp.*.sock"@),
        SocketGlobMode::SingleFile => None,
        SocketGlobMode::GlobPattern => Some(socket_path),
    }
}

/// The glob pattern that finds the sockets for `socket_path` in
/// `socket_mode`, if the mode calls for one.
pub fn target_pattern(socket_path: &str, socket_mode: SocketGlobMode) -> (pattern: Option<String>)
    ensures
        match target_pattern_spec(socket_path@, socket_mode) {
            Some(p) => pattern matches Some(text) && text@ == p,
            None => pattern.is_none(),
        },
{
    match socket_mode {
        SocketGlobMode::Directory => Some(
            String::from_str(socket_path).concat("/nvim-mcp.*.sock"),
        ),
        SocketGlobMode::SingleFile => None,
        SocketGlobMode::GlobPattern => Some(String::from_str(socket_path)),
    }
}

/// The paths among the entries of a directory walk, in their order; the
/// entries that could not be read are left out.
pub open spec fn readable_paths(entries: Seq<Result<String, String>>) -> Seq<String>
    decreases entries.len(),
{
    if entries.len() == 0 {
        Seq::empty()
    } else {
        match entries.last() {
            Ok(path) => readable_paths(entries.drop_last()).push(path),
            Err(_) => readable_paths(entries.drop_last()),
        }
    }
}

/// The targets that a glob's outcome stands for. Discovery is best-effort:
/// a pattern that could not be compiled yields no target, and entries that
/// could not be read are skipped.
pub fn targets_from_glob(found: Result<Vec<Result<String, String>>, String>) -> (targets: Vec<
    String,
>)
    ensures
        match found {
            Ok(entries) => targets@ == readable_paths(entries@),
            Err(_) => targets@.len() == 0,
        },
{
    let mut targets: Vec<String> = Vec::new();
    match found {
        Ok(entries) => {
            let mut i: usize = 0;
            while i < entries.len()
                invariant
                    i <= entries@.len(),
                    targets@ == readable_paths(entries@.subrange(0, i as int)),
                decreases entries@.len() - i,
            {
                assert(entries@.subrange(0, i + 1).drop_last() =~= entries@.subrange(0, i as int));
                match &entries[i] {
                    Ok(path) => {
                        targets.push(path.clone());
                    },
                    Err(_) => {},
                }
                i += 1;
            }
            assert(entries@.subrange(0, i as int) =~= entries@);
        },
        Err(_) => {},
    }
    targets
}

/// The targets of a single socket file: the file's path while something is
/// present there, and nothing otherwise.
pub fn single_file_targets(socket_path: &str, present: bool) -> (targets: Vec<String>)
    ensures
        targets@.len() == if present {
            1nat
        } else {
            0nat
        },
        present ==> targets@[0]@ == socket_path@,
{
    let mut targets: Vec<String> = Vec::new();
    if present {
        targets.push(String::from_str(socket_path));
    }
    targets
}

/// Finds the editor sockets that the socket path addresses at this moment.
///
/// In `SingleFile` mode the filesystem is asked whether something exists at
/// the path, and the answer is turned into targets as `single_file_targets`
/// says. In the other modes the filesystem is searched with the pattern of
/// `target_pattern`, and the matches are reported as `targets_from_glob`
/// says.
pub fn find_get_all_targets(socket_path: &str, socket_mode: &SocketGlobMode) -> (targets: Vec<
    String,
>)
    ensures
        socket_mode == SocketGlobMode::SingleFile ==> targets@.len() <= 1,
        socket_mode == SocketGlobMode::SingleFile ==> forall|i: int|
            0 <= i < targets@.len() ==> (#[trigger] targets@[i])@ == socket_path@,
{
    match target_pattern(socket_path, *socket_mode) {
        Some(pattern) => targets_from_glob(glob_matches(pattern.as_str())),
        None => single_file_targets(socket_path, path_exists(socket_path)),
    }
}

} // verus!
