//! The submit/poll/decode editor, bound to a model path and a credential.
//! Its decisions are verified here: which request shape a model path takes,
//! the data URI built for the input image, the priority order over the
//! response's three possible result fields, and the local decoding of a
//! data-URI result. The HTTP submission and any result download are
//! performed by the caller around these functions.

use vstd::prelude::*;
use vstd::string::*;

use crate::codec::{
    b64_decode, b64_encode, b64_of, data_uri_text, find_char, find_char_exec, is_b64_char,
    lemma_find_char_first, mime_of_header,
};
use crate::config::AppConfig;
use crate::error::AppError;
use crate::text::{contains_bytes, contains_seq};

verus! {

/// The dynamic editor: a model path under the Fal API and a credential.
#[derive(Debug)]
pub struct FalEditor {
    /// The model path, as the bytes of the normalized identifier remainder.
    pub model_path: Vec<u8>,
    /// Credential for the Fal API.
    pub api_key: String,
}

/// The mime type sniffed from the magic bytes for the data URI sent to the
/// backend; unrecognized data falls back to JPEG.
pub open spec fn spec_detect_mime(data: Seq<u8>) -> Seq<char> {
    if data.len() >= 8 && data[0] == 0x89 && data[1] == 0x50 && data[2] == 0x4e && data[3] == 0x47
        && data[4] == 0x0d && data[5] == 0x0a && data[6] == 0x1a && data[7] == 0x0a {
        "image/png"@
    } else if data.len() >= 3 && data[0] == 0xff && data[1] == 0xd8 && data[2] == 0xff {
        "image/jpeg"@
    } else if data.len() >= 6 && data[0] == 0x47 && data[1] == 0x49 && data[2] == 0x46 && data[3]
        == 0x38 && (data[4] == 0x37 || data[4] == 0x39) && data[5] == 0x61 {
        "image/gif"@
    } else if data.len() > 12 && data[0] == 0x52 && data[1] == 0x49 && data[2] == 0x46 && data[3]
        == 0x46 && data[8] == 0x57 && data[9] == 0x45 && data[10] == 0x42 && data[11] == 0x50 {
        "image/webp"@
    } else {
        "image/jpeg"@
    }
}

/// Whether a model path takes a single image field rather than an array of
/// image references.
pub open spec fn spec_single_image(model_path: Seq<u8>) -> bool {
    contains_seq(model_path, "flux-kontext".spec_bytes()) || contains_seq(
        model_path,
        "qwen-image-edit".spec_bytes(),
    )
}

/// One submission, ready to send: the endpoint URL, the credential, and the
/// request fields. `single_image` selects between the two request shapes;
/// the submission always asks for synchronous completion and PNG output.
#[derive(Debug)]
pub struct FalRequestPlan {
    /// The endpoint URL, as bytes.
    pub url: Vec<u8>,
    /// Credential for the `Authorization` header.
    pub api_key: String,
    /// The edit prompt.
    pub prompt: String,
    /// The input image as a base64 data URI.
    pub image_data_uri: String,
    /// Single image field rather than an array of image references.
    pub single_image: bool,
    /// Requested output format.
    pub output_format: String,
    /// Ask the backend to complete synchronously.
    pub sync_mode: bool,
}

/// The result fields a response may carry, already reduced to plain values:
/// a single image reference, an array of references, or a nested result
/// reference.
#[derive(Debug)]
pub struct FalResponseShape {
    /// The single image field, when present.
    pub image: Option<String>,
    /// The array of image references; empty when absent.
    pub images: Vec<String>,
    /// The nested result field, when present.
    pub result: Option<String>,
}

/// The reference picked from a response: the single image field first, then
/// the first element of the array, then the nested result field.
pub open spec fn spec_extract_image_url(r: &FalResponseShape) -> Option<Seq<char>> {
    match r.image {
        Some(u) => Some(u@),
        None => if r.images@.len() > 0 {
            Some(r.images@[0]@)
        } else {
            match r.result {
                Some(u) => Some(u@),
                None => None,
            }
        },
    }
}

/// What to do with a located result reference: bytes already decoded from a
/// data URI, or an HTTP(S) URL still to download.
#[derive(Debug)]
pub enum FalResultAction {
    /// The reference was a data URI; these are its decoded bytes.
    Decoded(Vec<u8>),
    /// The reference is a URL to download.
    Download(String),
}

impl FalEditor {
    /// Bind an editor to a model path, requiring the Fal credential.
    pub fn new(model_path: Vec<u8>, config: &AppConfig) -> (r: Result<FalEditor, AppError>)
        ensures
            match config.fal_key {
                Some(k) => r is Ok && r->Ok_0.model_path@ == model_path@ && r->Ok_0.api_key@ == k@,
                None => r is Err && r->Err_0 is ProviderNotFound && r->Err_0->ProviderNotFound_0@
                    == "FAL_KEY not configured"@,
            },
    {
        match &config.fal_key {
            Some(k) => Ok(FalEditor { model_path, api_key: k.clone() }),
            None => Err(AppError::ProviderNotFound(String::from_str("FAL_KEY not configured"))),
        }
    }

    /// Sniff the mime type for the outgoing data URI from the magic bytes.
    pub fn detect_mime_type(bytes: &[u8]) -> (r: &'static str)
        ensures
            r@ == spec_detect_mime(bytes@),
    {
        if bytes.len() >= 8 && bytes[0] == 0x89 && bytes[1] == 0x50 && bytes[2] == 0x4e && bytes[3]
            == 0x47 && bytes[4] == 0x0d && bytes[5] == 0x0a && bytes[6] == 0x1a && bytes[7]
            == 0x0a {
            "image/png"
        } else if bytes.len() >= 3 && bytes[0] == 0xff && bytes[1] == 0xd8 && bytes[2] == 0xff {
            "image/jpeg"
        } else if bytes.len() >= 6 && bytes[0] == 0x47 && bytes[1] == 0x49 && bytes[2] == 0x46
            && bytes[3] == 0x38 && (bytes[4] == 0x37 || bytes[4] == 0x39) && bytes[5] == 0x61 {
            "image/gif"
        } else if bytes.len() > 12 && bytes[0] == 0x52 && bytes[1] == 0x49 && bytes[2] == 0x46
            && bytes[3] == 0x46 && bytes[8] == 0x57 && bytes[9] == 0x45 && bytes[10] == 0x42
            && bytes[11] == 0x50 {
            "image/webp"
        } else {
            "image/jpeg"
        }
    }

    /// Build the self-contained data URI for an input image.
    pub fn bytes_to_data_uri(image_bytes: &[u8]) -> (r: String)
        ensures
            r@ == data_uri_text(spec_detect_mime(image_bytes@), b64_of(image_bytes@)),
    {
        let mime = Self::detect_mime_type(image_bytes);
        let encoded = b64_encode(image_bytes);
        let r = String::from_str("data:").concat(mime).concat(";base64,").concat(encoded.as_str());
        proof {
            assert(r@ =~= data_uri_text(spec_detect_mime(image_bytes@), b64_of(image_bytes@)));
        }
        r
    }

    /// Assemble one submission: the subscribe endpoint for this model path,
    /// the input image as a data URI, and the request shape the model path
    /// calls for.
    pub fn build_request(&self, image_bytes: &[u8], prompt: &str) -> (r: FalRequestPlan)
        ensures
            r.url@ == "https://queue.fal.run/".spec_bytes() + self.model_path@
                + "/subscribe".spec_bytes(),
            r.api_key@ == self.api_key@,
            r.prompt@ == prompt@,
            r.image_data_uri@ == data_uri_text(spec_detect_mime(image_bytes@), b64_of(image_bytes@)),
            r.single_image == spec_single_image(self.model_path@),
            r.output_format@ == "png"@,
            r.sync_mode == true,
    {
        let image_data_uri = Self::bytes_to_data_uri(image_bytes);
        let single_image = contains_bytes(&self.model_path, "flux-kontext".as_bytes())
            || contains_bytes(&self.model_path, "qwen-image-edit".as_bytes());
        let mut url: Vec<u8> = Vec::new();
        url.extend_from_slice("https://queue.fal.run/".as_bytes());
        url.extend_from_slice(self.model_path.as_slice());
        url.extend_from_slice("/subscribe".as_bytes());
        proof {
            assert(url@ =~= "https://queue.fal.run/".spec_bytes() + self.model_path@
                + "/subscribe".spec_bytes());
        }
        FalRequestPlan {
            url,
            api_key: self.api_key.clone(),
            prompt: String::from_str(prompt),
            image_data_uri,
            single_image,
            output_format: String::from_str("png"),
            sync_mode: true,
        }
    }

    /// Pick the result reference out of a response: the single image field,
    /// then the first of the array, then the nested result field.
    pub fn extract_image_url(response: &FalResponseShape) -> (r: Option<String>)
        ensures
            match r {
                Some(u) => spec_extract_image_url(response) == Some(u@),
                None => spec_extract_image_url(response) is None,
            },
    {
        if let Some(u) = &response.image {
            return Some(u.clone());
        }
        if response.images.len() > 0 {
            return Some(response.images[0].clone());
        }
        if let Some(u) = &response.result {
            return Some(u.clone());
        }
        None
    }

    /// Decode a base64 data URI into its bytes and mime type. Fails on text
    /// without the `data:` prefix, on a URI without a comma separator, and
    /// on a payload that is not canonical base64.
    pub fn decode_data_uri(data_uri: &str) -> (r: Result<(Vec<u8>, Option<String>), AppError>)
        ensures
            !(data_uri@.len() >= 5 && data_uri@.take(5) == "data:"@) ==> r is Err && r->Err_0
                is ProviderError && r->Err_0->ProviderError_0@ == "Not a data URI"@,
            (data_uri@.len() >= 5 && data_uri@.take(5) == "data:"@) ==> match find_char(
                data_uri@,
                ',',
            ) {
                None => r is Err && r->Err_0 is ProviderError && r->Err_0->ProviderError_0@
                    == "Malformed data URI: missing comma separator"@,
                Some(ci) => {
                    let payload = data_uri@.skip(ci + 1);
                    &&& (forall|x: Seq<u8>|
                        payload == #[trigger] b64_of(x) ==> r is Ok && r->Ok_0.0@ == x)
                    &&& (r is Ok ==> payload == b64_of(r->Ok_0.0@))
                    &&& (exists|i: int|
                        0 <= i < payload.len() && !is_b64_char(#[trigger] payload[i])) ==> r is Err
                    &&& (r is Err ==> r->Err_0 is ProviderError && r->Err_0->ProviderError_0@
                        == "Failed to decode base64 data from data URI"@)
                    &&& r is Ok ==> match mime_of_header(data_uri@.take(ci)) {
                        Some(m) => (r->Ok_0.1 matches Some(ms) && ms@ == m),
                        None => r->Ok_0.1 is None,
                    }
                },
            },
    {
        let len = data_uri.unicode_len();
        let has_prefix = len >= 5 && data_uri.get_char(0) == 'd' && data_uri.get_char(1) == 'a'
            && data_uri.get_char(2) == 't' && data_uri.get_char(3) == 'a' && data_uri.get_char(4)
            == ':';
        proof {
            reveal_strlit("data:");
            if has_prefix {
                assert(data_uri@.take(5) =~= "data:"@);
            } else if len >= 5 && data_uri@.take(5) == "data:"@ {
                assert forall|i: int| 0 <= i < 5 implies data_uri@[i] == "data:"@[i] by {
                    assert(data_uri@.take(5)[i] == data_uri@[i]);
                }
                assert(false);
            }
        }
        if !has_prefix {
            return Err(AppError::ProviderError(String::from_str("Not a data URI")));
        }
        let ci = match find_char_exec(data_uri, ',') {
            Some(ci) => ci,
            None => {
                return Err(
                    AppError::ProviderError(
                        String::from_str("Malformed data URI: missing comma separator"),
                    ),
                );
            },
        };
        proof {
            reveal_strlit("data:");
            lemma_find_char_first(data_uri@, ',');
            assert forall|i: int| 0 <= i < 5 implies data_uri@[i] == "data:"@[i] by {
                assert(data_uri@.take(5)[i] == data_uri@[i]);
            }
            assert(ci >= 5);
        }
        let header = data_uri.substring_char(0, ci);
        proof {
            assert(header@ =~= data_uri@.take(ci as int));
            assert(header@.take(5) =~= data_uri@.take(5));
        }
        let mime: Option<String> = match find_char_exec(header, ';') {
            Some(si) => {
                proof {
                    reveal_strlit("data:");
                    lemma_find_char_first(header@, ';');
                    assert forall|i: int| 0 <= i < 5 implies header@[i] != ';' by {
                        assert(header@[i] == "data:"@[i]);
                    }
                    assert(si >= 5);
                }
                Some(String::from_str(header.substring_char(5, si)))
            },
            None => None,
        };
        proof {
            if mime is None {
                assert(mime_of_header(data_uri@.take(ci as int)) is None);
            }
        }
        let payload = data_uri.substring_char(ci + 1, len);
        proof {
            assert(payload@ =~= data_uri@.skip(ci as int + 1));
        }
        match b64_decode(payload) {
            Ok(bytes) => Ok((bytes, mime)),
            Err(()) => Err(
                AppError::ProviderError(
                    String::from_str("Failed to decode base64 data from data URI"),
                ),
            ),
        }
    }

    /// Resolve the response of one submission: find the result reference and
    /// either decode it locally (a data URI) or hand back the URL to
    /// download. A response without any result reference is an error, as is
    /// a malformed data URI.
    pub fn resolve_fal_result(response: &FalResponseShape) -> (r: Result<FalResultAction, AppError>)
        ensures
            match spec_extract_image_url(response) {
                None => r is Err && r->Err_0 is ProviderError && r->Err_0->ProviderError_0@
                    == "No image URL found in Fal.ai response"@,
                Some(u) => if !(u.len() >= 5 && u.take(5) == "data:"@) {
                    r is Ok && r->Ok_0 is Download && r->Ok_0->Download_0@ == u
                } else {
                    &&& r is Ok ==> r->Ok_0 is Decoded
                    &&& (match find_char(u, ',') {
                        Some(ci) => {
                            let payload = u.skip(ci + 1);
                            &&& (forall|x: Seq<u8>|
                                payload == #[trigger] b64_of(x) ==> r is Ok
                                    && r->Ok_0->Decoded_0@ == x)
                            &&& (r is Ok ==> payload == b64_of(r->Ok_0->Decoded_0@))
                            &&& (r is Err ==> r->Err_0 is ProviderError
                                && r->Err_0->ProviderError_0@
                                == "Failed to decode base64 data from data URI"@)
                        },
                        None => r is Err && r->Err_0 is ProviderError
                            && r->Err_0->ProviderError_0@
                            == "Malformed data URI: missing comma separator"@,
                    })
                },
            },
    {
        let url = match Self::extract_image_url(response) {
            Some(u) => u,
            None => {
                return Err(
                    AppError::ProviderError(
                        String::from_str("No image URL found in Fal.ai response"),
                    ),
                );
            },
        };
        let len = url.as_str().unicode_len();
        let is_data = len >= 5 && url.as_str().get_char(0) == 'd' && url.as_str().get_char(1)
            == 'a' && url.as_str().get_char(2) == 't' && url.as_str().get_char(3) == 'a'
            && url.as_str().get_char(4) == ':';
        proof {
            reveal_strlit("data:");
            if is_data {
                assert(url@.take(5) =~= "data:"@);
            } else if len >= 5 && url@.take(5) == "data:"@ {
                assert forall|i: int| 0 <= i < 5 implies url@[i] == "data:"@[i] by {
                    assert(url@.take(5)[i] == url@[i]);
                }
                assert(false);
            }
        }
        if is_data {
            match Self::decode_data_uri(url.as_str()) {
                Ok((bytes, _mime)) => Ok(FalResultAction::Decoded(bytes)),
                Err(e) => Err(e),
            }
        } else {
            Ok(FalResultAction::Download(url))
        }
    }

    /// Accept or reject the submission's HTTP outcome: any status outside
    /// the success range fails, embedding the status and the response text.
    pub fn check_submit_status(status: u16, body: String) -> (r: Result<(), AppError>)
        ensures
            200 <= status < 300 <==> r is Ok,
            !(200 <= status < 300) ==> r->Err_0 is ProviderError && r->Err_0->ProviderError_0@
                == "Fal.ai API returned error "@ + crate::request::spec_dec(status as nat)
                + ": "@ + body@,
    {
        if 200 <= status && status < 300 {
            Ok(())
        } else {
            let code = crate::request::usize_to_string(status as usize);
            let msg = String::from_str("Fal.ai API returned error ").concat(code.as_str()).concat(
                ": ",
            ).concat(body.as_str());
            Err(AppError::ProviderError(msg))
        }
    }

    /// Accept or reject a completed result download: a success status hands
    /// back the body, any other status is a backend failure naming the HTTP
    /// status.
    pub fn accept_download(status: u16, body: Vec<u8>) -> (r: Result<Vec<u8>, AppError>)
        ensures
            200 <= status < 300 ==> r is Ok && r->Ok_0@ == body@,
            !(200 <= status < 300) ==> r is Err && r->Err_0 is ProviderError
                && r->Err_0->ProviderError_0@ == "Failed to download image: HTTP "@
                + crate::request::spec_dec(status as nat),
    {
        if 200 <= status && status < 300 {
            Ok(body)
        } else {
            let code = crate::request::usize_to_string(status as usize);
            let msg = String::from_str("Failed to download image: HTTP ").concat(code.as_str());
            Err(AppError::ProviderError(msg))
        }
    }
}

} // verus!
