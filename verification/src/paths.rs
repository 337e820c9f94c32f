//! Path construction for engine binaries and model files: the dedicated
//! installation directory, well-known cache locations, and the ordered
//! candidate lists that discovery walks.

use vstd::prelude::*;

verus! {

/// The per-application installation directory under a home directory.
pub open spec fn install_dir_spec(home: Seq<char>) -> Seq<char> {
    home + "/.voiceintelligence/whisper"@
}

/// Returns the dedicated installation directory for engine and models.
pub fn install_dir(home: &str) -> (r: String)
    ensures
        r@ == install_dir_spec(home@),
{
    let base = String::from_str(home);
    base.concat("/.voiceintelligence/whisper")
}

/// `dir` and `name` joined with a path separator.
pub open spec fn join_path_spec(dir: Seq<char>, name: Seq<char>) -> Seq<char> {
    dir + "/"@ + name
}

/// Joins a directory and a file name with a path separator.
pub fn join_path(dir: &str, name: &str) -> (r: String)
    ensures
        r@ == join_path_spec(dir@, name@),
{
    let base = String::from_str(dir);
    base.concat("/").concat(name)
}

/// The file names under which the engine binary may be installed in the
/// installation directory, in the order they are tried.
pub open spec fn engine_binary_names() -> Seq<Seq<char>> {
    seq!["whisper.exe"@, "main.exe"@, "whisper"@, "main"@]
}

/// Returns the candidate paths for an installed engine binary under `home`,
/// most specific first.
pub fn engine_binary_candidates(home: &str) -> (r: Vec<String>)
    ensures
        r@.len() == engine_binary_names().len(),
        forall|i: int|
            0 <= i < r@.len() ==> r@[i]@ == join_path_spec(
                install_dir_spec(home@),
                engine_binary_names()[i],
            ),
{
    let dir = install_dir(home);
    let mut out: Vec<String> = Vec::new();
    out.push(join_path(dir.as_str(), "whisper.exe"));
    out.push(join_path(dir.as_str(), "main.exe"));
    out.push(join_path(dir.as_str(), "whisper"));
    out.push(join_path(dir.as_str(), "main"));
    out
}

/// The bare command names probed through the executable search path, in the
/// order they are tried.
pub open spec fn path_command_names() -> Seq<Seq<char>> {
    seq!["whisper"@, "whisper-cpp"@, "main"@]
}

/// Returns the bare command names to probe through the search path.
pub fn path_commands() -> (r: Vec<String>)
    ensures
        r@.len() == path_command_names().len(),
        forall|i: int| 0 <= i < r@.len() ==> r@[i]@ == path_command_names()[i],
{
    let mut out: Vec<String> = Vec::new();
    out.push(String::from_str("whisper"));
    out.push(String::from_str("whisper-cpp"));
    out.push(String::from_str("main"));
    out
}

/// The ordered locations searched for a model file named `name` under `home`.
/// A `models` subdirectory of the installation directory is searched first,
/// but only when the installation directory itself exists.
pub open spec fn model_search_paths_spec(
    home: Seq<char>,
    name: Seq<char>,
    install_dir_present: bool,
) -> Seq<Seq<char>> {
    let base = seq![
        join_path_spec(install_dir_spec(home), name),
        join_path_spec(home + "/.cache/whisper"@, name),
        join_path_spec(home + "/whisper.cpp/models"@, name),
        join_path_spec("models"@, name),
        name,
    ];
    if install_dir_present {
        seq![join_path_spec(join_path_spec(install_dir_spec(home), "models"@), name)] + base
    } else {
        base
    }
}

/// Returns the ordered candidate locations for a model file.
pub fn model_search_paths(home: &str, name: &str, install_dir_present: bool) -> (r: Vec<String>)
    ensures
        views_eq(r@, model_search_paths_spec(home@, name@, install_dir_present)),
{
    let dir = install_dir(home);
    let mut out: Vec<String> = Vec::new();
    if install_dir_present {
        let models_dir = join_path(dir.as_str(), "models");
        out.push(join_path(models_dir.as_str(), name));
    }
    out.push(join_path(dir.as_str(), name));
    let cache = String::from_str(home).concat("/.cache/whisper");
    out.push(join_path(cache.as_str(), name));
    let repo = String::from_str(home).concat("/whisper.cpp/models");
    out.push(join_path(repo.as_str(), name));
    out.push(join_path("models", name));
    out.push(String::from_str(name));
    proof {
        assert forall|i: int|
            0 <= i < out@.len() implies out@[i]@ == model_search_paths_spec(
            home@,
            name@,
            install_dir_present,
        )[i] by {
            assert(join_path_spec("models"@, name@) == "models"@ + "/"@ + name@);
        }
    }
    out
}

/// The fallback locations searched for a language-restricted model file when
/// the multilingual file is absent.
pub open spec fn model_fallback_paths_spec(home: Seq<char>, name: Seq<char>) -> Seq<Seq<char>> {
    seq![
        join_path_spec(install_dir_spec(home), name),
        join_path_spec(home + "/.cache/whisper"@, name),
        join_path_spec(home + "/whisper.cpp/models"@, name),
    ]
}

/// Returns the fallback candidate locations for a model file.
pub fn model_fallback_paths(home: &str, name: &str) -> (r: Vec<String>)
    ensures
        views_eq(r@, model_fallback_paths_spec(home@, name@)),
{
    let dir = install_dir(home);
    let mut out: Vec<String> = Vec::new();
    out.push(join_path(dir.as_str(), name));
    let cache = String::from_str(home).concat("/.cache/whisper");
    out.push(join_path(cache.as_str(), name));
    let repo = String::from_str(home).concat("/whisper.cpp/models");
    out.push(join_path(repo.as_str(), name));
    out
}

/// The strings of `v` are, element for element, the character sequences `s`.
pub open spec fn views_eq(v: Seq<String>, s: Seq<Seq<char>>) -> bool {
    &&& v.len() == s.len()
    &&& forall|i: int| 0 <= i < v.len() ==> v[i]@ == s[i]
}

} // verus!
