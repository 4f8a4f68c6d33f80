//! What is sent to the recogniser, and what is made of its answer.

use crate::ocr::error::OcrError;
use crate::settings::model::{OcrProvider, OcrSettings};
use crate::text::{ends_with, has_suffix, trim, trim_end_matches, trimmed, without_trailing};
use vstd::prelude::*;
use vstd::string::StringExecFns;

verus! {

/// The address of the layout recogniser.
pub const GLM_OCR_LAYOUT_URL: &'static str = "https://open.bigmodel.cn/api/paas/v4/layout_parsing";

/// The model that the layout recogniser is asked for.
pub const GLM_OCR_FIXED_MODEL: &'static str = "glm-ocr";

/// The shortest time that a request is given, in milliseconds.
pub const MIN_OCR_TIMEOUT_MS: u64 = 1_000;

/// The longest time that a request is given, in milliseconds.
pub const MAX_OCR_TIMEOUT_MS: u64 = 120_000;

/// What the body of a request holds besides the picture.
#[derive(Debug, Clone)]
pub enum OcrRequestBody {
    /// A chat request with a picture: the model, and the prompt unless it is
    /// blank.
    OpenaiVision { model: String, prompt: Option<String> },
    /// A layout request: the model.
    GlmLayout { model: &'static str },
}

/// A request to the recogniser, but for the picture.
#[derive(Debug, Clone)]
pub struct OcrRequestPlan {
    pub url: String,
    /// The value of the header that carries the key.
    pub authorization: String,
    pub timeout_ms: u64,
    pub body: OcrRequestBody,
}

/// The address for chat completions with pictures: the base address without
/// surrounding white space and without the slashes at its end, or the
/// default where nothing is left; followed by `/chat/completions` unless it
/// ends so already.
pub open spec fn openai_chat_url(base_url: Seq<char>) -> Seq<char> {
    let stripped = without_trailing(trimmed(base_url), '/');
    let base = if stripped.len() == 0 {
        "https://api.openai.com/v1"@
    } else {
        stripped
    };
    if has_suffix(base, "/chat/completions"@) {
        base
    } else {
        base + "/chat/completions"@
    }
}

/// The time that a request is given: what the settings say, but no less than
/// one second and no more than two minutes.
pub open spec fn request_timeout_ms(timeout_ms: u64) -> u64 {
    if timeout_ms < MIN_OCR_TIMEOUT_MS {
        MIN_OCR_TIMEOUT_MS
    } else if timeout_ms > MAX_OCR_TIMEOUT_MS {
        MAX_OCR_TIMEOUT_MS
    } else {
        timeout_ms
    }
}

/// Builds the address for chat completions with pictures.
pub fn build_openai_chat_url(ocr: &OcrSettings) -> (url: String)
    ensures
        url@ == openai_chat_url(ocr.base_url@),
{
    let stripped = trim_end_matches(trim(ocr.base_url.as_str()), '/');
    let base = if stripped.is_empty() {
        "https://api.openai.com/v1"
    } else {
        stripped
    };
    if ends_with(base, "/chat/completions") {
        return base.to_owned();
    }
    let mut url = base.to_owned();
    url.append("/chat/completions");
    url
}

/// Why no request can be made with these settings, if so: the key is blank,
/// or the chat recogniser is to be asked and the model's name is blank.
pub open spec fn request_obstacle(ocr: OcrSettings) -> Option<OcrError> {
    if trimmed(ocr.api_key@).len() == 0 {
        Some(OcrError::EmptyApiKey)
    } else if ocr.provider == OcrProvider::OpenaiVision && trimmed(ocr.model@).len() == 0 {
        Some(OcrError::EmptyModel)
    } else {
        None
    }
}

/// Whether `plan` is the request that the settings ask for.
pub open spec fn is_request_for(plan: OcrRequestPlan, ocr: OcrSettings) -> bool {
    &&& plan.timeout_ms == request_timeout_ms(ocr.timeout_ms)
    &&& match ocr.provider {
        OcrProvider::OpenaiVision => {
            &&& plan.url@ == openai_chat_url(ocr.base_url@)
            &&& plan.authorization@ == "Bearer "@ + trimmed(ocr.api_key@)
            &&& plan.body matches OcrRequestBody::OpenaiVision { model, prompt }
            &&& model@ == trimmed(ocr.model@)
            &&& match prompt {
                Some(p) => p@ == trimmed(ocr.prompt@) && p@.len() > 0,
                None => trimmed(ocr.prompt@).len() == 0,
            }
        },
        OcrProvider::GlmOcr => {
            &&& plan.url@ == GLM_OCR_LAYOUT_URL@
            &&& plan.authorization@ == trimmed(ocr.api_key@)
            &&& plan.body matches OcrRequestBody::GlmLayout { model }
            &&& model@ == GLM_OCR_FIXED_MODEL@
        },
    }
}

/// Plans the request to the recogniser that the settings name.
pub fn plan_ocr_request(ocr: &OcrSettings) -> (plan: Result<OcrRequestPlan, OcrError>)
    ensures
        match plan {
            Ok(p) => request_obstacle(*ocr) is None && is_request_for(p, *ocr),
            Err(error) => request_obstacle(*ocr) == Some(error),
        },
{
    let api_key = trim(ocr.api_key.as_str());
    if api_key.is_empty() {
        return Err(OcrError::EmptyApiKey);
    }
    let timeout_ms: u64 = if ocr.timeout_ms < MIN_OCR_TIMEOUT_MS {
        MIN_OCR_TIMEOUT_MS
    } else if ocr.timeout_ms > MAX_OCR_TIMEOUT_MS {
        MAX_OCR_TIMEOUT_MS
    } else {
        ocr.timeout_ms
    };
    match ocr.provider {
        OcrProvider::OpenaiVision => {
            let model = trim(ocr.model.as_str());
            if model.is_empty() {
                return Err(OcrError::EmptyModel);
            }
            let prompt = trim(ocr.prompt.as_str());
            let mut authorization = "Bearer ".to_owned();
            authorization.append(api_key);
            Ok(
                OcrRequestPlan {
                    url: build_openai_chat_url(ocr),
                    authorization,
                    timeout_ms,
                    body: OcrRequestBody::OpenaiVision {
                        model: model.to_owned(),
                        prompt: if prompt.is_empty() {
                            None
                        } else {
                            Some(prompt.to_owned())
                        },
                    },
                },
            )
        },
        OcrProvider::GlmOcr => Ok(
            OcrRequestPlan {
                url: GLM_OCR_LAYOUT_URL.to_owned(),
                authorization: api_key.to_owned(),
                timeout_ms,
                body: OcrRequestBody::GlmLayout { model: GLM_OCR_FIXED_MODEL },
            },
        ),
    }
}

/// The recognised text, given what was found in the answer: without
/// surrounding white space. Nothing found, or only white space, is an empty
/// response.
pub fn recognized_text(found: Option<&str>) -> (text: Result<String, OcrError>)
    ensures
        match text {
            Ok(t) => found matches Some(f) && t@ == trimmed(f@) && t@.len() > 0,
            Err(error) => error == OcrError::EmptyResponse && (found matches Some(f) ==> trimmed(
                f@,
            ).len() == 0),
        },
{
    match found {
        Some(f) => {
            let t = trim(f);
            if t.is_empty() {
                Err(OcrError::EmptyResponse)
            } else {
                Ok(t.to_owned())
            }
        },
        None => Err(OcrError::EmptyResponse),
    }
}

/// Whether recognition may run with these settings.
pub fn ensure_ocr_enabled(ocr: &OcrSettings) -> (result: Result<(), OcrError>)
    ensures
        ocr.enabled ==> result is Ok,
        !ocr.enabled ==> result == Err::<(), OcrError>(OcrError::Disabled),
{
    if ocr.enabled {
        Ok(())
    } else {
        Err(OcrError::Disabled)
    }
}

} // verus!
