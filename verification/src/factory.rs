//! The provider registry: identifier normalization, static aliases, the
//! dynamic `fal:` prefix, and the fallback policy. `get_editor` resolves a
//! requested provider to a concrete editor or a not-found error, exactly as
//! `spec_resolve` describes.

use vstd::prelude::*;
use vstd::string::*;

use crate::config::AppConfig;
use crate::error::AppError;
use crate::fal_editor::FalEditor;
use crate::google_nano_banana::GoogleNanaBananaEditor;
use crate::text::{
    bytes_eq, lemma_norm_id_idempotent, norm_id, normalize_bytes, starts_with_bytes, subvec,
    trim_bytes, trim_vec,
};

verus! {

/// A concrete editor: the closed set of backends a provider identifier can
/// resolve to.
#[derive(Debug)]
pub enum Editor {
    /// The streaming chat-based editor.
    Google(GoogleNanaBananaEditor),
    /// The submit/poll/decode editor, bound to a model path.
    Fal(FalEditor),
}

/// The outcome of resolving a provider identifier against the configured
/// credentials.
pub enum Resolution {
    /// The chat-based editor: a static alias matched, or an unknown name
    /// fell back to it, with its credential present.
    Google,
    /// The dynamic editor, bound to this model path.
    Fal(Seq<u8>),
    /// A dynamic reference with an empty model path; fails no matter which
    /// credentials are configured.
    ModelPathMissing,
    /// A dynamic reference without the dynamic family's credential.
    FalKeyMissing,
    /// A static alias without the static family's credential.
    GoogleKeyMissing,
    /// An unknown name, and the fallback's credential is absent.
    UnknownNoFallback,
}

/// How a provider identifier resolves: normalize once, then try the dynamic
/// prefix, then the static aliases, then fall back to the static editor.
pub open spec fn spec_resolve(id: Seq<u8>, google_key: bool, fal_key: bool) -> Resolution {
    let n = norm_id(id);
    let flen = "fal:".spec_bytes().len() as int;
    if n.len() >= flen && n.take(flen) == "fal:".spec_bytes() {
        let mp = trim_bytes(n.skip(flen));
        if mp.len() == 0 {
            Resolution::ModelPathMissing
        } else if !fal_key {
            Resolution::FalKeyMissing
        } else {
            Resolution::Fal(mp)
        }
    } else if n == "google".spec_bytes() || n == "nano-banana".spec_bytes() {
        if google_key {
            Resolution::Google
        } else {
            Resolution::GoogleKeyMissing
        }
    } else {
        if google_key {
            Resolution::Google
        } else {
            Resolution::UnknownNoFallback
        }
    }
}

/// Law: resolution sees only the normalized identifier, so identifiers that
/// normalize alike — differing only by letter case or surrounding
/// whitespace — resolve to the same outcome.
pub proof fn lemma_resolution_case_insensitive(a: Seq<u8>, b: Seq<u8>, google_key: bool, fal_key: bool)
    requires
        norm_id(a) == norm_id(b),
    ensures
        spec_resolve(a, google_key, fal_key) == spec_resolve(b, google_key, fal_key),
{
}

/// Law: an identifier resolves exactly as its normalized form does; in
/// particular normalization is applied only once.
pub proof fn lemma_resolution_normalizes(id: Seq<u8>, google_key: bool, fal_key: bool)
    ensures
        spec_resolve(id, google_key, fal_key) == spec_resolve(norm_id(id), google_key, fal_key),
{
    lemma_norm_id_idempotent(id);
}

/// Law: identifiers that differ only by letter case resolve to the same
/// outcome, whatever credentials are configured.
pub proof fn lemma_resolution_ignores_case(a: Seq<u8>, b: Seq<u8>, google_key: bool, fal_key: bool)
    requires
        a.len() == b.len(),
        forall|i: int| 0 <= i < a.len() ==> crate::text::lower_byte(a[i])
            == crate::text::lower_byte(b[i]),
    ensures
        spec_resolve(a, google_key, fal_key) == spec_resolve(b, google_key, fal_key),
{
    crate::text::lemma_norm_id_ignores_case(a, b);
}

/// Law: surrounding whitespace never changes the outcome: an identifier
/// padded with whitespace on either side resolves as the bare identifier
/// does, whatever credentials are configured.
pub proof fn lemma_resolution_ignores_padding(
    p: Seq<u8>,
    id: Seq<u8>,
    q: Seq<u8>,
    google_key: bool,
    fal_key: bool,
)
    requires
        forall|j: int| 0 <= j < p.len() ==> crate::text::is_space_byte(p[j]),
        forall|j: int| 0 <= j < q.len() ==> crate::text::is_space_byte(q[j]),
    ensures
        spec_resolve(p + id + q, google_key, fal_key) == spec_resolve(id, google_key, fal_key),
{
    crate::text::lemma_norm_id_ignores_padding(p, id, q);
}

/// Law: a dynamic reference whose model path is empty after trimming fails
/// with the model-path-required error, no matter which credentials are
/// configured.
pub proof fn lemma_empty_model_path_always_fails(id: Seq<u8>, google_key: bool, fal_key: bool)
    requires
        ({
            let n = norm_id(id);
            let flen = "fal:".spec_bytes().len() as int;
            &&& n.len() >= flen
            &&& n.take(flen) == "fal:".spec_bytes()
            &&& trim_bytes(n.skip(flen)).len() == 0
        }),
    ensures
        spec_resolve(id, google_key, fal_key) == Resolution::ModelPathMissing,
{
}

/// Law: an identifier matching neither the dynamic prefix nor a static
/// alias falls back to the static editor exactly when that editor's
/// credential is present, and fails with not-found otherwise.
pub proof fn lemma_unknown_provider_fallback(id: Seq<u8>, google_key: bool, fal_key: bool)
    requires
        ({
            let n = norm_id(id);
            let flen = "fal:".spec_bytes().len() as int;
            &&& !(n.len() >= flen && n.take(flen) == "fal:".spec_bytes())
            &&& n != "google".spec_bytes()
            &&& n != "nano-banana".spec_bytes()
        }),
    ensures
        spec_resolve(id, google_key, fal_key) == if google_key {
            Resolution::Google
        } else {
            Resolution::UnknownNoFallback
        },
{
}

/// The statically available provider names, sorted: the two aliases of the
/// chat-based editor when its credential is present. Dynamic providers are
/// never enumerated.
pub fn list_providers(config: &AppConfig) -> (r: Vec<String>)
    ensures
        match config.spec_google_key() {
            Some(_) => r@.len() == 2 && r@[0]@ == "google"@ && r@[1]@ == "nano-banana"@,
            None => r@.len() == 0,
        },
{
    let mut providers: Vec<String> = Vec::new();
    if config.get_google_api_key().is_some() {
        providers.push(String::from_str("google"));
        providers.push(String::from_str("nano-banana"));
    }
    providers
}

/// Resolve a provider identifier to a concrete editor, or a not-found
/// error, following `spec_resolve`: dynamic `fal:` references first, then
/// the static aliases, then fallback to the static editor.
pub fn get_editor(provider_name: &str, config: &AppConfig) -> (r: Result<Editor, AppError>)
    ensures
        match spec_resolve(
            provider_name.spec_bytes(),
            config.spec_google_key() is Some,
            config.fal_key is Some,
        ) {
            Resolution::Google => {
                &&& r is Ok
                &&& r->Ok_0 is Google
                &&& r->Ok_0->Google_0.model_id@ == config.google_model_id@
                &&& match r->Ok_0->Google_0.api_key {
                    Some(k) => config.spec_google_key() == Some(k@),
                    None => false,
                }
            },
            Resolution::Fal(mp) => {
                &&& r is Ok
                &&& r->Ok_0 is Fal
                &&& r->Ok_0->Fal_0.model_path@ == mp
                &&& config.fal_key matches Some(k) && r->Ok_0->Fal_0.api_key@ == k@
            },
            Resolution::ModelPathMissing => {
                &&& r is Err
                &&& r->Err_0 is ProviderNotFound
                &&& r->Err_0->ProviderNotFound_0@
                    == "Fal provider requires a model path. Format: fal:model-path"@
            },
            Resolution::FalKeyMissing => {
                &&& r is Err
                &&& r->Err_0 is ProviderNotFound
                &&& r->Err_0->ProviderNotFound_0@
                    == "Fal provider requested but FAL_KEY is not configured in environment"@
            },
            Resolution::GoogleKeyMissing => {
                &&& r is Err
                &&& r->Err_0 is ProviderNotFound
                &&& r->Err_0->ProviderNotFound_0@
                    == "Google provider requested but GOOGLE_API_KEY/GEMINI_API_KEY is not configured in environment"@
            },
            Resolution::UnknownNoFallback => {
                &&& r is Err
                &&& r->Err_0 is ProviderNotFound
                &&& r->Err_0->ProviderNotFound_0@ == "Provider '"@ + provider_name@
                    + "' not found and cannot fallback to Google (no API key configured)"@
            },
        },
{
    let bytes = provider_name.as_bytes_vec();
    let n = normalize_bytes(&bytes);
    if starts_with_bytes(&n, "fal:".as_bytes()) {
        proof {
            reveal_strlit("fal:");
            vstd::string::is_ascii_spec_bytes("fal:");
            assert("fal:".spec_bytes().len() == 4);
        }
        let rest = subvec(&n, 4, n.len());
        let mp = trim_vec(&rest);
        if mp.len() == 0 {
            return Err(
                AppError::ProviderNotFound(
                    String::from_str("Fal provider requires a model path. Format: fal:model-path"),
                ),
            );
        }
        if config.fal_key.is_none() {
            return Err(
                AppError::ProviderNotFound(
                    String::from_str(
                        "Fal provider requested but FAL_KEY is not configured in environment",
                    ),
                ),
            );
        }
        match FalEditor::new(mp, config) {
            Ok(editor) => Ok(Editor::Fal(editor)),
            Err(e) => Err(e),
        }
    } else if bytes_eq(&n, "google".as_bytes()) || bytes_eq(&n, "nano-banana".as_bytes()) {
        if config.get_google_api_key().is_none() {
            return Err(
                AppError::ProviderNotFound(
                    String::from_str(
                        "Google provider requested but GOOGLE_API_KEY/GEMINI_API_KEY is not configured in environment",
                    ),
                ),
            );
        }
        Ok(Editor::Google(GoogleNanaBananaEditor::new(config)))
    } else {
        if config.get_google_api_key().is_none() {
            return Err(
                AppError::ProviderNotFound(
                    String::from_str("Provider '").concat(provider_name).concat(
                        "' not found and cannot fallback to Google (no API key configured)",
                    ),
                ),
            );
        }
        Ok(Editor::Google(GoogleNanaBananaEditor::new(config)))
    }
}

} // verus!
