//! Where the executable lives and where each session's workspace lies.
use vstd::prelude::*;

verus! {

/// The directory that holds the executable.
pub open spec fn executable_dir() -> Seq<char> {
    "./.tf"@
}

/// The executable's path; Windows adds `.exe`.
pub open spec fn executable_file(windows: bool) -> Seq<char> {
    executable_dir() + "/terraform"@ + if windows {
        ".exe"@
    } else {
        Seq::empty()
    }
}

/// The fixed workspace reused across sessions.
pub open spec fn static_workspace_dir() -> Seq<char> {
    executable_dir() + "/"@ + "mod"@
}

/// The workspace named by a generated identifier.
pub open spec fn unique_workspace_dir(id: Seq<char>) -> Seq<char> {
    executable_dir() + "/"@ + id
}

/// A character of a hyphenated lowercase identifier.
pub open spec fn is_id_char(c: char) -> bool {
    ('0' <= c && c <= '9') || ('a' <= c && c <= 'f') || c == '-'
}

/// A generated identifier: 36 lowercase hex digits and hyphens.
pub open spec fn is_workspace_id(id: Seq<char>) -> bool {
    id.len() == 36 && forall|i: int| 0 <= i < id.len() ==> is_id_char(#[trigger] id[i])
}

/// A workspace directory that a session may be given: the fixed one in
/// static mode, else one named by some generated identifier.
pub open spec fn workspace_dir_fits(dir: Seq<char>, static_workspace: bool) -> bool {
    if static_workspace {
        dir == static_workspace_dir()
    } else {
        exists|id: Seq<char>| is_workspace_id(id) && dir == unique_workspace_dir(id)
    }
}

/// Directory that holds the provisioning tool's executable.
pub fn executable_path() -> (r: String)
    ensures
        r@ == executable_dir(),
{
    String::from_str("./.tf")
}

/// Full path of the executable on the operating system named `os`
/// (as `std::env::consts::OS` names it).
pub fn executable(os: &str) -> (r: String)
    ensures
        r@ == executable_file(os@ == "windows"@),
{
    let windows = String::from_str(os) == String::from_str("windows");
    let mut r = executable_path();
    r.append("/terraform");
    if windows {
        r.append(".exe");
    } else {
        assert(r@ + Seq::<char>::empty() =~= r@);
    }
    r
}

/// Relies on uuid's `Uuid::new_v4` and its `Display`, which writes the
/// hyphenated form: 36 characters, lowercase hex digits and `-`.
#[verifier::external_body]
fn fresh_id() -> (r: String)
    ensures
        is_workspace_id(r@),
{
    uuid::Uuid::new_v4().to_string()
}

/// The workspace directory of a new session: the fixed one in static mode,
/// else one named by a freshly generated identifier. Creating the directory
/// is left to the caller.
pub fn create_workspace(static_workspace: bool) -> (r: String)
    ensures
        workspace_dir_fits(r@, static_workspace),
{
    let mut r = executable_path();
    r.append("/");
    if static_workspace {
        r.append("mod");
    } else {
        let id = fresh_id();
        r.append(id.as_str());
    }
    r
}

/// Two sessions in static mode are given the same workspace directory.
pub proof fn lemma_static_workspace_shared(a: Seq<char>, b: Seq<char>)
    requires
        workspace_dir_fits(a, true),
        workspace_dir_fits(b, true),
    ensures
        a == b,
{
}

/// Outside static mode, distinct identifiers give distinct workspace
/// directories. (That two generated identifiers differ is a matter of
/// chance, which this does not state.)
pub proof fn lemma_distinct_ids_distinct_workspaces(id1: Seq<char>, id2: Seq<char>)
    requires
        id1 != id2,
    ensures
        unique_workspace_dir(id1) != unique_workspace_dir(id2),
{
    let p = executable_dir() + "/"@;
    if unique_workspace_dir(id1) == unique_workspace_dir(id2) {
        assert((p + id1).subrange(p.len() as int, (p + id1).len() as int) =~= id1);
        assert((p + id2).subrange(p.len() as int, (p + id2).len() as int) =~= id2);
    }
}

} // verus!
