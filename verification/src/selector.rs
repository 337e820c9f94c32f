//! Model selection: maps a logical model size tag and a target language to a
//! concrete model file name, walks the resolver's candidate locations, falls
//! back from the multilingual to the language-restricted variant when only
//! the latter is installed, and otherwise fails with a message enumerating
//! every path searched.

use vstd::prelude::*;
use crate::paths::{
    model_fallback_paths, model_fallback_paths_spec, model_search_paths, model_search_paths_spec,
    views_eq,
};
use crate::text::{join, join_spec, str_eq, views_of};

verus! {

/// The multilingual model file for a logical size tag.
pub open spec fn multi_file_of(model: Seq<char>) -> Seq<char> {
    if model == "tiny"@ || model == "tiny.en"@ { "ggml-tiny.bin"@ }
    else if model == "base"@ || model == "base.en"@ { "ggml-base.bin"@ }
    else if model == "small"@ || model == "small.en"@ { "ggml-small.bin"@ }
    else if model == "medium"@ || model == "medium.en"@ { "ggml-medium.bin"@ }
    else if model == "large"@ { "ggml-large.bin"@ }
    else { "ggml-base.bin"@ }
}

/// The language-restricted model file for a logical size tag. The `large`
/// size has no restricted variant and resolves to the multilingual file.
pub open spec fn english_file_of(model: Seq<char>) -> Seq<char> {
    if model == "tiny"@ || model == "tiny.en"@ { "ggml-tiny.en.bin"@ }
    else if model == "base"@ || model == "base.en"@ { "ggml-base.en.bin"@ }
    else if model == "small"@ || model == "small.en"@ { "ggml-small.en.bin"@ }
    else if model == "medium"@ || model == "medium.en"@ { "ggml-medium.en.bin"@ }
    else if model == "large"@ { "ggml-large.bin"@ }
    else { "ggml-base.en.bin"@ }
}

/// Any language but the default requires the multilingual variant.
pub open spec fn uses_multilingual(language: Seq<char>) -> bool {
    language != "en"@
}

/// The file name selection resolves to before any availability fallback.
pub open spec fn chosen_file_of(model: Seq<char>, language: Seq<char>) -> Seq<char> {
    if uses_multilingual(language) {
        multi_file_of(model)
    } else {
        english_file_of(model)
    }
}

/// Returns the multilingual model file name for a logical size tag.
pub fn multilingual_file_name(model: &str) -> (r: String)
    ensures
        r@ == multi_file_of(model@),
{
    if str_eq(model, "tiny") || str_eq(model, "tiny.en") {
        String::from_str("ggml-tiny.bin")
    } else if str_eq(model, "base") || str_eq(model, "base.en") {
        String::from_str("ggml-base.bin")
    } else if str_eq(model, "small") || str_eq(model, "small.en") {
        String::from_str("ggml-small.bin")
    } else if str_eq(model, "medium") || str_eq(model, "medium.en") {
        String::from_str("ggml-medium.bin")
    } else if str_eq(model, "large") {
        String::from_str("ggml-large.bin")
    } else {
        String::from_str("ggml-base.bin")
    }
}

/// Returns the language-restricted model file name for a logical size tag.
pub fn english_file_name(model: &str) -> (r: String)
    ensures
        r@ == english_file_of(model@),
{
    if str_eq(model, "tiny") || str_eq(model, "tiny.en") {
        String::from_str("ggml-tiny.en.bin")
    } else if str_eq(model, "base") || str_eq(model, "base.en") {
        String::from_str("ggml-base.en.bin")
    } else if str_eq(model, "small") || str_eq(model, "small.en") {
        String::from_str("ggml-small.en.bin")
    } else if str_eq(model, "medium") || str_eq(model, "medium.en") {
        String::from_str("ggml-medium.en.bin")
    } else if str_eq(model, "large") {
        String::from_str("ggml-large.bin")
    } else {
        String::from_str("ggml-base.en.bin")
    }
}

/// Returns the model file name selection resolves to before fallback.
pub fn chosen_file_name(model: &str, language: &str) -> (r: String)
    ensures
        r@ == chosen_file_of(model@, language@),
{
    if !str_eq(language, "en") {
        multilingual_file_name(model)
    } else {
        english_file_name(model)
    }
}

/// Some element of `flags` is true.
pub open spec fn has_true(flags: Seq<bool>) -> bool {
    exists|i: int| 0 <= i < flags.len() && flags[i]
}

/// `i` is the position of the first true element of `flags`.
pub open spec fn is_first_true(flags: Seq<bool>, i: int) -> bool {
    &&& 0 <= i < flags.len()
    &&& flags[i]
    &&& forall|j: int| 0 <= j < i ==> !flags[j]
}

/// Selection resolves to a candidate of the chosen file itself.
pub open spec fn selection_takes_primary(primary: Seq<bool>) -> bool {
    has_true(primary)
}

/// Selection falls back to the language-restricted file: the chosen
/// multilingual file is absent everywhere, the restricted file is present.
pub open spec fn selection_takes_fallback(
    language: Seq<char>,
    primary: Seq<bool>,
    fallback: Seq<bool>,
) -> bool {
    !has_true(primary) && uses_multilingual(language) && has_true(fallback)
}

/// Selection fails: no candidate of the chosen file exists and no fallback
/// applies.
pub open spec fn selection_fails(
    language: Seq<char>,
    primary: Seq<bool>,
    fallback: Seq<bool>,
) -> bool {
    !has_true(primary) && !(uses_multilingual(language) && has_true(fallback))
}

/// Fallback correctness: whenever a language other than the default asks for
/// a multilingual file that is absent from every searched location while the
/// language-restricted file is present somewhere, selection takes the
/// fallback and never fails.
pub proof fn lemma_fallback_over_failure(
    language: Seq<char>,
    primary: Seq<bool>,
    fallback: Seq<bool>,
)
    requires
        language != "en"@,
        !has_true(primary),
        has_true(fallback),
    ensures
        selection_takes_fallback(language, primary, fallback),
        !selection_fails(language, primary, fallback),
{
}

/// The error message when no candidate of the model file is found: the file
/// name, every path searched, and, for a multilingual file, the canonical
/// download URL.
pub open spec fn model_missing_msg_spec(
    name: Seq<char>,
    paths: Seq<Seq<char>>,
    language: Seq<char>,
    multi: bool,
) -> Seq<char> {
    let head = "Whisper model '"@ + name + "' not found. Searched in:\n"@ + join_spec(
        paths,
        "\n"@,
    );
    if multi {
        head + "\n\nFor "@ + language
            + " transcription, you need the multilingual model '"@ + name
            + "'.\nRe-run the whisper installation or download from:\nhttps://huggingface.co/ggerganov/whisper.cpp/resolve/main/"@
            + name
    } else {
        head
    }
}

/// Builds the error message for a model that no searched location holds.
pub fn model_missing_message(name: &str, paths: &Vec<String>, language: &str, multi: bool) -> (r:
    String)
    ensures
        r@ == model_missing_msg_spec(name@, views_of(paths@), language@, multi),
{
    let mut msg = String::from_str("Whisper model '");
    msg.append(name);
    msg.append("' not found. Searched in:\n");
    let joined = join(paths, "\n");
    msg.append(joined.as_str());
    if multi {
        msg.append("\n\nFor ");
        msg.append(language);
        msg.append(" transcription, you need the multilingual model '");
        msg.append(name);
        msg.append(
            "'.\nRe-run the whisper installation or download from:\nhttps://huggingface.co/ggerganov/whisper.cpp/resolve/main/",
        );
        msg.append(name);
    }
    msg
}

/// A successful model resolution: the concrete path, and whether it is the
/// language-restricted fallback for a multilingual request.
#[derive(Debug)]
pub struct ModelResolution {
    pub path: String,
    pub used_fallback: bool,
}

/// Resolves a logical model and target language to the first existing
/// candidate path. `primary_present` and `fallback_present` report, element
/// for element, which of the chosen file's search paths and which of the
/// restricted file's fallback paths exist on disk.
///
/// Returns the first existing candidate of the chosen file; failing that,
/// for a multilingual request, the first existing fallback candidate of the
/// restricted file, marked as a fallback; failing both, an error that
/// enumerates every path searched.
pub fn get_model_path(
    model: &str,
    language: &str,
    home: &str,
    install_dir_present: bool,
    primary_present: &Vec<bool>,
    fallback_present: &Vec<bool>,
) -> (r: Result<ModelResolution, String>)
    requires
        primary_present@.len() == model_search_paths_spec(
            home@,
            chosen_file_of(model@, language@),
            install_dir_present,
        ).len(),
        fallback_present@.len() == model_fallback_paths_spec(
            home@,
            english_file_of(model@),
        ).len(),
    ensures
        ({
            let name = chosen_file_of(model@, language@);
            let spaths = model_search_paths_spec(home@, name, install_dir_present);
            let fbpaths = model_fallback_paths_spec(home@, english_file_of(model@));
            let multi = uses_multilingual(language@);
            &&& selection_takes_primary(primary_present@) ==> (r matches Ok(m) && !m.used_fallback
                && (forall|i: int| is_first_true(primary_present@, i) ==> m.path@ == spaths[i]))
            &&& selection_takes_fallback(language@, primary_present@, fallback_present@) ==> (
            r matches Ok(m) && m.used_fallback && (forall|i: int|
                is_first_true(fallback_present@, i) ==> m.path@ == fbpaths[i]))
            &&& selection_fails(language@, primary_present@, fallback_present@) ==> (r matches Err(
                e,
            ) && e@ == model_missing_msg_spec(name, spaths, language@, multi))
        }),
{
    let multi = !str_eq(language, "en");
    let name = chosen_file_name(model, language);
    let paths = model_search_paths(home, name.as_str(), install_dir_present);
    let mut i: usize = 0;
    while i < paths.len()
        invariant
            paths@.len() == primary_present@.len(),
            i <= paths@.len(),
            forall|j: int| 0 <= j < i ==> !primary_present@[j],
            views_eq(
                paths@,
                model_search_paths_spec(
                    home@,
                    chosen_file_of(model@, language@),
                    install_dir_present,
                ),
            ),
        decreases paths@.len() - i,
    {
        if primary_present[i] {
            assert(is_first_true(primary_present@, i as int));
            assert(forall|k: int| is_first_true(primary_present@, k) ==> k == i as int);
            return Ok(ModelResolution { path: paths[i].clone(), used_fallback: false });
        }
        i += 1;
    }
    assert(!has_true(primary_present@));
    if multi {
        let fbname = english_file_name(model);
        let fbpaths = model_fallback_paths(home, fbname.as_str());
        let mut k: usize = 0;
        while k < fbpaths.len()
            invariant
                !has_true(primary_present@),
                language@ != "en"@,
                fbpaths@.len() == fallback_present@.len(),
                k <= fbpaths@.len(),
                forall|j: int| 0 <= j < k ==> !fallback_present@[j],
                views_eq(fbpaths@, model_fallback_paths_spec(home@, english_file_of(model@))),
            decreases fbpaths@.len() - k,
        {
            if fallback_present[k] {
                assert(is_first_true(fallback_present@, k as int));
                assert(forall|j: int| is_first_true(fallback_present@, j) ==> j == k as int);
                assert(has_true(fallback_present@));
                assert(!selection_fails(language@, primary_present@, fallback_present@));
                return Ok(ModelResolution { path: fbpaths[k].clone(), used_fallback: true });
            }
            k += 1;
        }
        assert(!has_true(fallback_present@));
    }
    proof {
        assert(views_of(paths@) =~= model_search_paths_spec(
            home@,
            chosen_file_of(model@, language@),
            install_dir_present,
        ));
    }
    let msg = model_missing_message(name.as_str(), &paths, language, multi);
    Err(msg)
}

} // verus!
