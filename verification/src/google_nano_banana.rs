//! The streaming chat-based editor. Its decisions are verified here: the
//! development fallback when no credential is configured, mime sniffing of
//! the input, assembly of the chat payload, and extraction of the edited
//! image from the parts captured at the end of the stream. The network call
//! itself is performed by the caller between `prepare_edit` and
//! `finish_edit`.

use vstd::prelude::*;
use vstd::string::*;

use crate::codec::{b64_decode, b64_encode, b64_of};
use crate::config::AppConfig;
use crate::error::AppError;

verus! {

/// The chat-based editor: a model id and an optional credential. Without a
/// credential it runs as a development fallback that returns input images
/// unchanged.
#[derive(Debug)]
pub struct GoogleNanaBananaEditor {
    /// Model id used for generation.
    pub model_id: String,
    /// Credential; `None` selects the development fallback.
    pub api_key: Option<String>,
}

/// The mime type sniffed from the magic bytes at the start of image data;
/// unrecognized data counts as a generic binary type.
pub open spec fn spec_guess_mime(data: Seq<u8>) -> Seq<char> {
    if data.len() >= 3 && data[0] == 0xff && data[1] == 0xd8 && data[2] == 0xff {
        "image/jpeg"@
    } else if data.len() >= 8 && data[0] == 0x89 && data[1] == 0x50 && data[2] == 0x4e && data[3]
        == 0x47 && data[4] == 0x0d && data[5] == 0x0a && data[6] == 0x1a && data[7] == 0x0a {
        "image/png"@
    } else if data.len() >= 6 && data[0] == 0x47 && data[1] == 0x49 && data[2] == 0x46 && data[3]
        == 0x38 && (data[4] == 0x37 || data[4] == 0x39) && data[5] == 0x61 {
        "image/gif"@
    } else if data.len() >= 12 && data[0] == 0x52 && data[1] == 0x49 && data[2] == 0x46 && data[3]
        == 0x46 && data[8] == 0x57 && data[9] == 0x45 && data[10] == 0x42 && data[11] == 0x50 {
        "image/webp"@
    } else {
        "application/octet-stream"@
    }
}

/// One chat turn ready to submit: the image as base64 with its mime type,
/// the prompt, and the model binding.
#[derive(Debug)]
pub struct GoogleChatCall {
    /// Model id to call.
    pub model_id: String,
    /// Credential to authenticate with.
    pub api_key: String,
    /// Mime type sniffed from the input image.
    pub mime: String,
    /// The input image, base64-encoded.
    pub image_base64: String,
    /// The edit prompt.
    pub prompt: String,
}

/// What one edit request amounts to: either the input handed back unchanged
/// (development fallback) or a chat call to submit.
#[derive(Debug)]
pub enum GoogleEditStep {
    /// No credential is configured: return the input unchanged.
    Unchanged(Vec<u8>),
    /// Submit this chat turn and await the stream's terminal event.
    Submit(GoogleChatCall),
}

impl GoogleNanaBananaEditor {
    /// Bind the editor to the configured model and the effective
    /// Google-family credential, if any.
    pub fn new(config: &AppConfig) -> (r: GoogleNanaBananaEditor)
        ensures
            r.model_id@ == config.google_model_id@,
            match r.api_key {
                Some(k) => config.spec_google_key() == Some(k@),
                None => config.spec_google_key() is None,
            },
    {
        let api_key = match config.get_google_api_key() {
            Some(k) => Some(String::from_str(k)),
            None => None,
        };
        GoogleNanaBananaEditor { model_id: config.google_model_id.clone(), api_key }
    }

    /// Sniff the mime type of image data from its magic bytes.
    pub fn guess_mime(data: &[u8]) -> (r: &'static str)
        ensures
            r@ == spec_guess_mime(data@),
    {
        if data.len() >= 3 && data[0] == 0xff && data[1] == 0xd8 && data[2] == 0xff {
            "image/jpeg"
        } else if data.len() >= 8 && data[0] == 0x89 && data[1] == 0x50 && data[2] == 0x4e
            && data[3] == 0x47 && data[4] == 0x0d && data[5] == 0x0a && data[6] == 0x1a && data[7]
            == 0x0a {
            "image/png"
        } else if data.len() >= 6 && data[0] == 0x47 && data[1] == 0x49 && data[2] == 0x46
            && data[3] == 0x38 && (data[4] == 0x37 || data[4] == 0x39) && data[5] == 0x61 {
            "image/gif"
        } else if data.len() >= 12 && data[0] == 0x52 && data[1] == 0x49 && data[2] == 0x46
            && data[3] == 0x46 && data[8] == 0x57 && data[9] == 0x45 && data[10] == 0x42
            && data[11] == 0x50 {
            "image/webp"
        } else {
            "application/octet-stream"
        }
    }

    /// Decide one edit request: without a credential the input is returned
    /// unchanged; with one, a chat turn is assembled carrying the image as
    /// base64 together with its sniffed mime type and the prompt.
    pub fn prepare_edit(&self, image_bytes: Vec<u8>, prompt: &str) -> (r: GoogleEditStep)
        ensures
            match self.api_key {
                None => r is Unchanged && r->Unchanged_0@ == image_bytes@,
                Some(k) => {
                    &&& r is Submit
                    &&& r->Submit_0.model_id@ == self.model_id@
                    &&& r->Submit_0.api_key@ == k@
                    &&& r->Submit_0.mime@ == spec_guess_mime(image_bytes@)
                    &&& r->Submit_0.image_base64@ == b64_of(image_bytes@)
                    &&& r->Submit_0.prompt@ == prompt@
                },
            },
    {
        match &self.api_key {
            None => GoogleEditStep::Unchanged(image_bytes),
            Some(k) => {
                let mime = String::from_str(Self::guess_mime(image_bytes.as_slice()));
                let image_base64 = b64_encode(image_bytes.as_slice());
                GoogleEditStep::Submit(
                    GoogleChatCall {
                        model_id: self.model_id.clone(),
                        api_key: k.clone(),
                        mime,
                        image_base64,
                        prompt: String::from_str(prompt),
                    },
                )
            },
        }
    }

    /// Interpret the binary parts captured from the stream's terminal event,
    /// given as base64 payloads in order of appearance: every part must
    /// decode, the last one is the edited image, and an empty capture means
    /// the backend returned no image.
    pub fn finish_edit(parts: &Vec<String>) -> (r: Result<Vec<u8>, AppError>)
        ensures
            parts@.len() == 0 ==> r is Err && r->Err_0 is ProviderError
                && r->Err_0->ProviderError_0@ == "No edited image returned from Gemini stream"@,
            r is Ok ==> parts@.len() > 0 && parts@.last()@ == b64_of(r->Ok_0@),
            (parts@.len() > 0 && forall|i: int|
                0 <= i < parts@.len() ==> exists|x: Seq<u8>| (#[trigger] parts@[i])@ == b64_of(x))
                ==> r is Ok,
            r is Err ==> r->Err_0 is ProviderError,
            parts@.len() > 0 && r is Err ==> r->Err_0->ProviderError_0@
                == "Failed to decode base64 image data"@,
    {
        let mut last_image: Option<Vec<u8>> = None;
        let mut i: usize = 0;
        while i < parts.len()
            invariant
                0 <= i <= parts@.len(),
                i > 0 ==> (last_image matches Some(b) && parts@[i as int - 1]@ == b64_of(b@)),
                i == 0 ==> last_image is None,
            decreases parts@.len() - i,
        {
            match b64_decode(parts[i].as_str()) {
                Ok(decoded) => {
                    last_image = Some(decoded);
                },
                Err(()) => {
                    return Err(
                        AppError::ProviderError(
                            String::from_str("Failed to decode base64 image data"),
                        ),
                    );
                },
            }
            i = i + 1;
        }
        match last_image {
            Some(b) => Ok(b),
            None => Err(
                AppError::ProviderError(
                    String::from_str("No edited image returned from Gemini stream"),
                ),
            ),
        }
    }
}

} // verus!
