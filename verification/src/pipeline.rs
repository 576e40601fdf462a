//! The edit pipeline's decisions: classifying multipart fields, accumulating
//! validated images and the optional text fields, applying per-request
//! credential overrides, resolving the provider, picking the image for the
//! editor, and deriving the response content type from the output bytes.

use vstd::prelude::*;
use vstd::string::*;

use crate::config::AppConfig;
use crate::error::AppError;
use crate::factory::{get_editor, spec_resolve, Editor, Resolution};
use crate::image_utils::{format_of, get_mime_type, ImageKind};
use crate::request::EditImageRequest;
use crate::text::trim_chars;

verus! {

broadcast use vstd::string::group_string_axioms;

/// How the pipeline treats a multipart field, by its name. Unrecognized
/// fields are deliberately ignored rather than rejected.
pub enum FieldKind {
    /// An uploaded image (`images` or `image`).
    Image,
    /// The prompt text.
    Prompt,
    /// The provider identifier.
    Provider,
    /// Anything else: ignored.
    Other,
}

/// Classify a multipart field by its name.
pub fn classify_field(name: &str) -> (r: FieldKind)
    ensures
        r is Image <==> (name@ == "images"@ || name@ == "image"@),
        r is Prompt <==> name@ == "prompt"@,
        r is Provider <==> name@ == "provider"@,
{
    proof {
        reveal_strlit("images");
        reveal_strlit("image");
        reveal_strlit("prompt");
        reveal_strlit("provider");
        assert("images"@.len() == 6);
        assert("images"@[0] == 'i');
        assert("prompt"@[0] == 'p');
        assert("images"@ != "prompt"@);
        assert("images"@ != "provider"@);
        assert("image"@ != "prompt"@);
        assert("provider"@.len() == 8);
        assert("image"@ != "provider"@);
        assert("prompt"@ != "provider"@);
    }
    let n = String::from_str(name);
    if n == String::from_str("images") || n == String::from_str("image") {
        FieldKind::Image
    } else if n == String::from_str("prompt") {
        FieldKind::Prompt
    } else if n == String::from_str("provider") {
        FieldKind::Provider
    } else {
        FieldKind::Other
    }
}

/// Accumulates the request while multipart fields arrive: images in arrival
/// order, and the last nonblank prompt and provider fields.
#[derive(Debug)]
pub struct EditRequestBuilder {
    /// Validated images, in arrival order.
    pub images: Vec<Vec<u8>>,
    /// The prompt field, when one arrived nonblank.
    pub prompt: Option<String>,
    /// The provider field, when one arrived nonblank.
    pub provider: Option<String>,
}

impl EditRequestBuilder {
    /// An empty builder.
    pub fn new() -> (r: EditRequestBuilder)
        ensures
            r.images@.len() == 0,
            r.prompt is None,
            r.provider is None,
    {
        EditRequestBuilder { images: Vec::new(), prompt: None, provider: None }
    }

    /// Take one image field: empty data is skipped silently, data that does
    /// not sniff as an image is rejected, anything else is accumulated. The
    /// result says whether the image was accepted.
    pub fn add_image_field(&mut self, data: Vec<u8>) -> (r: Result<bool, AppError>)
        ensures
            final(self).prompt == old(self).prompt,
            final(self).provider == old(self).provider,
            data@.len() == 0 ==> r == Result::<bool, AppError>::Ok(false) && final(self).images
                == old(self).images,
            data@.len() > 0 && format_of(data@) is None ==> r is Err && r->Err_0
                is ImageProcessing && final(self).images == old(self).images,
            data@.len() > 0 && format_of(data@) is Some ==> r == Result::<bool, AppError>::Ok(true)
                && final(self).images@ == old(self).images@.push(data),
    {
        if data.len() == 0 {
            return Ok(false);
        }
        match get_mime_type(data.as_slice()) {
            Ok(_) => {
                self.images.push(data);
                Ok(true)
            },
            Err(_) => Err(AppError::ImageProcessing(String::from_str("Invalid image format"))),
        }
    }

    /// Take the prompt field: kept only if it is nonblank after trimming.
    pub fn set_prompt(&mut self, text: String)
        ensures
            final(self).images == old(self).images,
            final(self).provider == old(self).provider,
            final(self).prompt == if trim_chars(text@).len() > 0 {
                Some(text)
            } else {
                old(self).prompt
            },
    {
        let t = crate::text::trim_str(text.as_str());
        if !t.as_str().is_empty() {
            self.prompt = Some(text);
        }
    }

    /// Take the provider field: kept only if it is nonblank after trimming.
    pub fn set_provider(&mut self, text: String)
        ensures
            final(self).images == old(self).images,
            final(self).prompt == old(self).prompt,
            final(self).provider == if trim_chars(text@).len() > 0 {
                Some(text)
            } else {
                old(self).provider
            },
    {
        let t = crate::text::trim_str(text.as_str());
        if !t.as_str().is_empty() {
            self.provider = Some(text);
        }
    }

    /// Close the builder into a request; a request without any image is
    /// rejected.
    pub fn finish(self) -> (r: Result<EditImageRequest, AppError>)
        ensures
            self.images@.len() == 0 ==> r is Err && r->Err_0 is InvalidInput
                && r->Err_0->InvalidInput_0@ == "At least one image is required"@,
            self.images@.len() > 0 ==> r is Ok && r->Ok_0.images == self.images && r->Ok_0.prompt
                == self.prompt && r->Ok_0.provider == self.provider,
    {
        if self.images.len() == 0 {
            return Err(
                AppError::InvalidInput(String::from_str("At least one image is required")),
            );
        }
        Ok(EditImageRequest::with_options(self.images, self.prompt, self.provider))
    }
}

/// Everything needed for one editor invocation: the resolved editor, the
/// effective prompt, and the single image handed to the backend.
#[derive(Debug)]
pub struct EditCall {
    /// The editor the provider identifier resolved to.
    pub editor: Editor,
    /// The effective prompt.
    pub prompt: String,
    /// The first accumulated image; only one is edited per call.
    pub image: Vec<u8>,
}

/// The Google-family key after the per-request overlay, as a view.
pub open spec fn spec_overridden_google_key(
    config: &AppConfig,
    google_override: Option<String>,
    gemini_override: Option<String>,
) -> Option<Seq<char>> {
    let g = match google_override {
        Some(k) => Some(k@),
        None => match config.google_api_key {
            Some(k) => Some(k@),
            None => None,
        },
    };
    match g {
        Some(k) => Some(k),
        None => match gemini_override {
            Some(k) => Some(k@),
            None => match config.gemini_api_key {
                Some(k) => Some(k@),
                None => None,
            },
        },
    }
}

/// The Fal key after the per-request overlay, as a view.
pub open spec fn spec_overridden_fal_key(config: &AppConfig, fal_override: Option<String>) -> Option<
    Seq<char>,
> {
    match fal_override {
        Some(k) => Some(k@),
        None => match config.fal_key {
            Some(k) => Some(k@),
            None => None,
        },
    }
}

/// Resolve one edit request: require at least one image, overlay the header
/// credentials, resolve the provider identifier under them, and hand back
/// the editor, the effective prompt and the first image.
pub fn prepare_edit_call(
    request: EditImageRequest,
    config: AppConfig,
    google_override: Option<String>,
    gemini_override: Option<String>,
    fal_override: Option<String>,
) -> (r: Result<EditCall, AppError>)
    ensures
        request.images@.len() == 0 ==> r is Err && r->Err_0 is InvalidInput
            && r->Err_0->InvalidInput_0@ == "At least one image is required"@,
        request.images@.len() > 0 ==> {
            let gk = spec_overridden_google_key(&config, google_override, gemini_override);
            let fk = spec_overridden_fal_key(&config, fal_override);
            match spec_resolve(
                vstd::utf8::encode_utf8(request.spec_provider()),
                gk is Some,
                fk is Some,
            ) {
                Resolution::Google => {
                    &&& r is Ok
                    &&& r->Ok_0.editor is Google
                    &&& r->Ok_0.editor->Google_0.model_id@ == config.google_model_id@
                    &&& match r->Ok_0.editor->Google_0.api_key {
                        Some(k) => gk == Some(k@),
                        None => false,
                    }
                    &&& r->Ok_0.prompt@ == request.spec_prompt()
                    &&& r->Ok_0.image@ == request.images@[0]@
                },
                Resolution::Fal(mp) => {
                    &&& r is Ok
                    &&& r->Ok_0.editor is Fal
                    &&& r->Ok_0.editor->Fal_0.model_path@ == mp
                    &&& Some(r->Ok_0.editor->Fal_0.api_key@) == fk
                    &&& r->Ok_0.prompt@ == request.spec_prompt()
                    &&& r->Ok_0.image@ == request.images@[0]@
                },
                Resolution::ModelPathMissing => {
                    &&& r is Err
                    &&& r->Err_0 is ProviderNotFound
                    &&& r->Err_0->ProviderNotFound_0@
                        == "Fal provider requires a model path. Format: fal:model-path"@
                },
                Resolution::FalKeyMissing => {
                    &&& r is Err
                    &&& r->Err_0 is ProviderNotFound
                    &&& r->Err_0->ProviderNotFound_0@
                        == "Fal provider requested but FAL_KEY is not configured in environment"@
                },
                Resolution::GoogleKeyMissing => {
                    &&& r is Err
                    &&& r->Err_0 is ProviderNotFound
                    &&& r->Err_0->ProviderNotFound_0@
                        == "Google provider requested but GOOGLE_API_KEY/GEMINI_API_KEY is not configured in environment"@
                },
                Resolution::UnknownNoFallback => {
                    &&& r is Err
                    &&& r->Err_0 is ProviderNotFound
                    &&& r->Err_0->ProviderNotFound_0@ == "Provider '"@ + request.spec_provider()
                        + "' not found and cannot fallback to Google (no API key configured)"@
                },
            }
        },
{
    if request.images.len() == 0 {
        return Err(AppError::InvalidInput(String::from_str("At least one image is required")));
    }
    let runtime_config = config.with_overrides(google_override, gemini_override, fal_override);
    let prompt = request.get_prompt();
    let provider = request.get_provider();
    let editor = match get_editor(provider.as_str(), &runtime_config) {
        Ok(e) => e,
        Err(e) => {
            return Err(e);
        },
    };
    let mut images = request.images;
    let image = images.remove(0);
    Ok(EditCall { editor, prompt, image })
}

/// The content type of the response body, re-sniffed from the output bytes:
/// PNG, JPEG and WebP are reported as such, anything else defaults to PNG.
pub fn response_content_type(data: &[u8]) -> (r: String)
    ensures
        r@ == match format_of(data@) {
            Some(ImageKind::Png) => "image/png"@,
            Some(ImageKind::Jpeg) => "image/jpeg"@,
            Some(ImageKind::WebP) => "image/webp"@,
            _ => "image/png"@,
        },
{
    proof {
        reveal_strlit("image/png");
        reveal_strlit("image/jpeg");
        reveal_strlit("image/webp");
        reveal_strlit("image/gif");
        reveal_strlit("image/bmp");
        reveal_strlit("image/tiff");
        reveal_strlit("image/x-icon");
        reveal_strlit("application/octet-stream");
        assert("image/png"@.len() == 9);
        assert("image/jpeg"@.len() == 10);
        assert("image/webp"@.len() == 10);
        assert("image/gif"@.len() == 9);
        assert("image/bmp"@.len() == 9);
        assert("image/tiff"@.len() == 10);
        assert("image/x-icon"@.len() == 12);
        assert("application/octet-stream"@.len() == 24);
        assert("image/png"@[6] == 'p');
        assert("image/gif"@[6] == 'g');
        assert("image/bmp"@[6] == 'b');
        assert("image/jpeg"@[6] == 'j');
        assert("image/tiff"@[6] == 't');
        assert("image/webp"@[6] == 'w');
    }
    match get_mime_type(data) {
        Ok(mime) => {
            let is_known = mime == String::from_str("image/png") || mime == String::from_str(
                "image/jpeg",
            ) || mime == String::from_str("image/webp");
            if is_known {
                mime
            } else {
                String::from_str("image/png")
            }
        },
        Err(_) => String::from_str("image/png"),
    }
}

} // verus!
