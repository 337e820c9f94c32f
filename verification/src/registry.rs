//! The static registry of installable model artifacts: one descriptor per
//! supported size and language mode, with canonical file names and source
//! URLs, and the derived per-model installation status.

use vstd::prelude::*;
use crate::paths::{install_dir, install_dir_spec, join_path, join_path_spec};

verus! {

/// Static metadata identifying one installable model artifact.
pub struct ModelDescriptor {
    /// Logical identifier, e.g. `base` or `base-multi`.
    pub id: String,
    /// Display name.
    pub name: String,
    /// Human-readable size.
    pub size: String,
    /// Exact expected byte size, used as the progress denominator when the
    /// server reports none.
    pub size_bytes: u64,
    /// Canonical file name of the artifact.
    pub file_name: String,
    /// Whether the model supports languages other than English.
    pub is_multilingual: bool,
}

/// One model with its derived installation status.
pub struct WhisperModel {
    pub id: String,
    pub name: String,
    pub size: String,
    pub size_bytes: u64,
    pub download_url: String,
    pub installed: bool,
    pub installed_path: Option<String>,
    pub is_multilingual: bool,
}

/// The number of registry entries.
pub open spec fn registry_len() -> int {
    9
}

/// The logical identifier of registry entry `i`.
pub open spec fn reg_id(i: int) -> Seq<char> {
    if i == 0 { "tiny"@ }
    else if i == 1 { "tiny-multi"@ }
    else if i == 2 { "base"@ }
    else if i == 3 { "base-multi"@ }
    else if i == 4 { "small"@ }
    else if i == 5 { "small-multi"@ }
    else if i == 6 { "medium"@ }
    else if i == 7 { "medium-multi"@ }
    else { "large"@ }
}

/// The display name of registry entry `i`.
pub open spec fn reg_name(i: int) -> Seq<char> {
    if i == 0 { "Tiny (English)"@ }
    else if i == 1 { "Tiny (Multilingual)"@ }
    else if i == 2 { "Base (English)"@ }
    else if i == 3 { "Base (Multilingual)"@ }
    else if i == 4 { "Small (English)"@ }
    else if i == 5 { "Small (Multilingual)"@ }
    else if i == 6 { "Medium (English)"@ }
    else if i == 7 { "Medium (Multilingual)"@ }
    else { "Large (Multilingual)"@ }
}

/// The human-readable size of registry entry `i`.
pub open spec fn reg_size_label(i: int) -> Seq<char> {
    if i == 0 || i == 1 { "75 MB"@ }
    else if i == 2 || i == 3 { "142 MB"@ }
    else if i == 4 || i == 5 { "466 MB"@ }
    else if i == 6 || i == 7 { "1.5 GB"@ }
    else { "2.9 GB"@ }
}

/// The exact byte size of registry entry `i`.
pub open spec fn reg_size_bytes(i: int) -> u64 {
    if i == 0 || i == 1 { 75000000u64 }
    else if i == 2 || i == 3 { 142000000u64 }
    else if i == 4 || i == 5 { 466000000u64 }
    else if i == 6 || i == 7 { 1500000000u64 }
    else { 2900000000u64 }
}

/// The canonical file name of registry entry `i`.
pub open spec fn reg_file(i: int) -> Seq<char> {
    if i == 0 { "ggml-tiny.en.bin"@ }
    else if i == 1 { "ggml-tiny.bin"@ }
    else if i == 2 { "ggml-base.en.bin"@ }
    else if i == 3 { "ggml-base.bin"@ }
    else if i == 4 { "ggml-small.en.bin"@ }
    else if i == 5 { "ggml-small.bin"@ }
    else if i == 6 { "ggml-medium.en.bin"@ }
    else if i == 7 { "ggml-medium.bin"@ }
    else { "ggml-large.bin"@ }
}

/// Whether registry entry `i` is multilingual.
pub open spec fn reg_multi(i: int) -> bool {
    i == 1 || i == 3 || i == 5 || i == 7 || i == 8
}

/// The canonical source URL for a model artifact named `file`.
pub open spec fn model_url_spec(file: Seq<char>) -> Seq<char> {
    "https://huggingface.co/ggerganov/whisper.cpp/resolve/main/"@ + file
}

/// `d` is exactly registry entry `i`.
pub open spec fn descriptor_matches(d: ModelDescriptor, i: int) -> bool {
    &&& d.id@ == reg_id(i)
    &&& d.name@ == reg_name(i)
    &&& d.size@ == reg_size_label(i)
    &&& d.size_bytes == reg_size_bytes(i)
    &&& d.file_name@ == reg_file(i)
    &&& d.is_multilingual == reg_multi(i)
}

fn descriptor(
    id: &str,
    name: &str,
    size: &str,
    size_bytes: u64,
    file_name: &str,
    is_multilingual: bool,
) -> (d: ModelDescriptor)
    ensures
        d.id@ == id@,
        d.name@ == name@,
        d.size@ == size@,
        d.size_bytes == size_bytes,
        d.file_name@ == file_name@,
        d.is_multilingual == is_multilingual,
{
    ModelDescriptor {
        id: String::from_str(id),
        name: String::from_str(name),
        size: String::from_str(size),
        size_bytes,
        file_name: String::from_str(file_name),
        is_multilingual,
    }
}

/// Returns the static registry of installable models, one entry per
/// supported size and language mode.
pub fn model_registry() -> (r: Vec<ModelDescriptor>)
    ensures
        r@.len() == registry_len(),
        forall|i: int| 0 <= i < r@.len() ==> descriptor_matches(#[trigger] r@[i], i),
{
    let mut out: Vec<ModelDescriptor> = Vec::new();
    out.push(descriptor("tiny", "Tiny (English)", "75 MB", 75000000, "ggml-tiny.en.bin", false));
    out.push(descriptor("tiny-multi", "Tiny (Multilingual)", "75 MB", 75000000, "ggml-tiny.bin", true));
    out.push(descriptor("base", "Base (English)", "142 MB", 142000000, "ggml-base.en.bin", false));
    out.push(descriptor("base-multi", "Base (Multilingual)", "142 MB", 142000000, "ggml-base.bin", true));
    out.push(descriptor("small", "Small (English)", "466 MB", 466000000, "ggml-small.en.bin", false));
    out.push(descriptor("small-multi", "Small (Multilingual)", "466 MB", 466000000, "ggml-small.bin", true));
    out.push(descriptor("medium", "Medium (English)", "1.5 GB", 1500000000, "ggml-medium.en.bin", false));
    out.push(descriptor("medium-multi", "Medium (Multilingual)", "1.5 GB", 1500000000, "ggml-medium.bin", true));
    out.push(descriptor("large", "Large (Multilingual)", "2.9 GB", 2900000000, "ggml-large.bin", true));
    out
}

/// Returns the canonical download URL for a model artifact named `file`.
pub fn model_url(file: &str) -> (r: String)
    ensures
        r@ == model_url_spec(file@),
{
    let base = String::from_str("https://huggingface.co/ggerganov/whisper.cpp/resolve/main/");
    base.concat(file)
}

/// `m` describes registry entry `i` under `home`, installed iff `present`.
pub open spec fn model_status_matches(
    m: WhisperModel,
    i: int,
    home: Seq<char>,
    present: bool,
) -> bool {
    &&& m.id@ == reg_id(i)
    &&& m.name@ == reg_name(i)
    &&& m.size@ == reg_size_label(i)
    &&& m.size_bytes == reg_size_bytes(i)
    &&& m.download_url@ == model_url_spec(reg_file(i))
    &&& m.is_multilingual == reg_multi(i)
    &&& m.installed == present
    &&& if present {
        m.installed_path matches Some(p) && p@ == join_path_spec(install_dir_spec(home), reg_file(i))
    } else {
        m.installed_path is None
    }
}

/// Returns the registry with per-model installation status. A model is
/// installed iff a file of its canonical name exists in the installation
/// directory under `home`; `present` reports that existence, element for
/// element, for the paths that `model_registry` implies.
pub fn get_available_models(home: &str, present: &Vec<bool>) -> (r: Vec<WhisperModel>)
    requires
        present@.len() == registry_len(),
    ensures
        r@.len() == registry_len(),
        forall|i: int| 0 <= i < r@.len() ==> model_status_matches(#[trigger] r@[i], i, home@, present@[i]),
{
    let dir = install_dir(home);
    let descriptors = model_registry();
    let mut out: Vec<WhisperModel> = Vec::new();
    let mut i: usize = 0;
    while i < descriptors.len()
        invariant
            descriptors@.len() == registry_len(),
            present@.len() == registry_len(),
            forall|k: int| 0 <= k < descriptors@.len() ==> descriptor_matches(#[trigger] descriptors@[k], k),
            dir@ == install_dir_spec(home@),
            i <= descriptors@.len(),
            out@.len() == i,
            forall|k: int| 0 <= k < i ==> model_status_matches(#[trigger] out@[k], k, home@, present@[k]),
        decreases descriptors@.len() - i,
    {
        let d = &descriptors[i];
        let installed = present[i];
        let installed_path = if installed {
            Some(join_path(dir.as_str(), d.file_name.as_str()))
        } else {
            None
        };
        out.push(WhisperModel {
            id: d.id.clone(),
            name: d.name.clone(),
            size: d.size.clone(),
            size_bytes: d.size_bytes,
            download_url: model_url(d.file_name.as_str()),
            installed,
            installed_path,
            is_multilingual: d.is_multilingual,
        });
        i += 1;
    }
    out
}

} // verus!
