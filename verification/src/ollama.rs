//! The remote-service health check's decision logic: endpoint construction
//! and the classification of responses into results. The service itself is
//! an external collaborator; the caller performs the request and hands the
//! response's parts back as plain values.

use vstd::prelude::*;

verus! {

/// Outcome of the service availability check.
pub struct OllamaCheckResult {
    pub available: bool,
    /// The service's reported version, when it could be read.
    pub version: Option<String>,
    /// The base URL that was checked.
    pub base_url: String,
}

/// Information about one model the service hosts.
pub struct OllamaModel {
    pub name: String,
    pub model: String,
    pub size: u64,
    pub digest: String,
    pub modified_at: String,
}

/// Outcome of listing the service's models.
pub struct OllamaModelsResult {
    pub success: bool,
    pub models: Vec<OllamaModel>,
    pub error: Option<String>,
}

/// The base URL checked when the caller names none.
pub open spec fn default_base_url() -> Seq<char> {
    "http://localhost:11434"@
}

/// Returns the base URL to check: the given one, or the local default.
pub fn ollama_base_url(base_url: Option<String>) -> (r: String)
    ensures
        match base_url {
            Some(u) => r@ == u@,
            None => r@ == default_base_url(),
        },
{
    match base_url {
        Some(u) => u,
        None => String::from_str("http://localhost:11434"),
    }
}

/// Returns the version endpoint under a base URL.
pub fn ollama_version_endpoint(base: &str) -> (r: String)
    ensures
        r@ == base@ + "/api/version"@,
{
    let mut out = String::from_str(base);
    out.append("/api/version");
    out
}

/// Returns the model-listing endpoint under a base URL.
pub fn ollama_tags_endpoint(base: &str) -> (r: String)
    ensures
        r@ == base@ + "/api/tags"@,
{
    let mut out = String::from_str(base);
    out.append("/api/tags");
    out
}

/// Classifies the availability check: the service is available exactly when
/// it was reached and answered with a success status; its version is
/// reported only then, and only as far as it could be read.
pub fn check_ollama_available(
    base_url: String,
    reached: bool,
    status_ok: bool,
    version: Option<String>,
) -> (r: OllamaCheckResult)
    ensures
        r.available == (reached && status_ok),
        r.base_url@ == base_url@,
        if reached && status_ok {
            match version {
                Some(v) => r.version matches Some(w) && w@ == v@,
                None => r.version is None,
            }
        } else {
            r.version is None
        },
{
    if reached && status_ok {
        OllamaCheckResult { available: true, version, base_url }
    } else {
        OllamaCheckResult { available: false, version: None, base_url }
    }
}

/// One model built from a listing entry's fields. An entry without a name is
/// skipped; a missing model field falls back to the name, a missing size to
/// zero, missing text fields to empty.
pub fn ollama_model_from_fields(
    name: Option<String>,
    model: Option<String>,
    size: Option<u64>,
    digest: Option<String>,
    modified_at: Option<String>,
) -> (r: Option<OllamaModel>)
    ensures
        name is None ==> r is None,
        name matches Some(n) ==> (r matches Some(m) && {
            &&& m.name@ == n@
            &&& m.model@ == (match model {
                Some(v) => v@,
                None => n@,
            })
            &&& m.size == (match size {
                Some(v) => v,
                None => 0u64,
            })
            &&& m.digest@ == (match digest {
                Some(v) => v@,
                None => Seq::<char>::empty(),
            })
            &&& m.modified_at@ == (match modified_at {
                Some(v) => v@,
                None => Seq::<char>::empty(),
            })
        }),
{
    let n = match name {
        Some(n) => n,
        None => {
            return None;
        },
    };
    let model_field = match model {
        Some(v) => v,
        None => n.clone(),
    };
    let size_field = match size {
        Some(v) => v,
        None => 0,
    };
    let digest_field = match digest {
        Some(v) => v,
        None => String::new(),
    };
    let modified_field = match modified_at {
        Some(v) => v,
        None => String::new(),
    };
    Some(
        OllamaModel {
            name: n,
            model: model_field,
            size: size_field,
            digest: digest_field,
            modified_at: modified_field,
        },
    )
}

/// A successful listing of `models`.
pub fn ollama_models_ok(models: Vec<OllamaModel>) -> (r: OllamaModelsResult)
    ensures
        r.success,
        r.models == models,
        r.error is None,
{
    OllamaModelsResult { success: true, models, error: None }
}

/// The ways the listing fails; each keeps its own message prefix.
#[derive(Clone, Copy, Debug, PartialEq, Eq, Structural)]
pub enum OllamaFailure {
    /// The HTTP client could not be built.
    ClientBuild,
    /// The service could not be reached.
    Connect,
    /// The service answered with a non-success status.
    Status,
    /// The response body could not be read.
    Read,
    /// The response body could not be parsed.
    Parse,
}

/// The message prefix of one failure kind.
pub open spec fn ollama_failure_prefix(kind: OllamaFailure) -> Seq<char> {
    match kind {
        OllamaFailure::ClientBuild => "Failed to create HTTP client: "@,
        OllamaFailure::Connect => "Failed to connect to OLLAMA: "@,
        OllamaFailure::Status => "OLLAMA responded with status: "@,
        OllamaFailure::Read => "Failed to read response: "@,
        OllamaFailure::Parse => "Failed to parse response: "@,
    }
}

/// A failed listing: no models, and a message naming the failure and its
/// detail.
pub fn ollama_models_failure(kind: OllamaFailure, detail: &str) -> (r: OllamaModelsResult)
    ensures
        !r.success,
        r.models@.len() == 0,
        r.error matches Some(e) && e@ == ollama_failure_prefix(kind) + detail@,
{
    let mut msg = match kind {
        OllamaFailure::ClientBuild => String::from_str("Failed to create HTTP client: "),
        OllamaFailure::Connect => String::from_str("Failed to connect to OLLAMA: "),
        OllamaFailure::Status => String::from_str("OLLAMA responded with status: "),
        OllamaFailure::Read => String::from_str("Failed to read response: "),
        OllamaFailure::Parse => String::from_str("Failed to parse response: "),
    };
    msg.append(detail);
    OllamaModelsResult { success: false, models: Vec::new(), error: Some(msg) }
}

} // verus!
