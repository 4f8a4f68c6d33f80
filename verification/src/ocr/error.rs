//! What can go wrong between a capture request and the recognised text.

use vstd::prelude::*;
use vstd::string::StringExecFns;

verus! {

/// Why a capture or a recognition did not come about.
#[derive(Debug)]
pub enum OcrError {
    /// Recognition is switched off in the settings.
    Disabled,
    EmptyApiKey,
    EmptyModel,
    /// The region has a width or height that is no number or not above 0, or
    /// the request lacks what its mode needs, or nothing of it is on screen.
    InvalidRegion,
    /// The request names a mode that is none of the three.
    UnsupportedMode(String),
    /// No window of another program lies under the point.
    WindowNotFound,
    CaptureWindowUnavailable,
    MonitorUnavailable,
    CaptureFailure(String),
    Http(String),
    Encode(String),
    EmptyResponse,
    Settings(String),
}

impl OcrError {
    /// The text of the message, as a sequence of characters.
    pub open spec fn message_text(self) -> Seq<char> {
        match self {
            OcrError::Disabled => "OCR 未启用，请先在设置中开启"@,
            OcrError::EmptyApiKey => "OCR API Key 为空"@,
            OcrError::EmptyModel => "OCR 模型名称为空"@,
            OcrError::InvalidRegion => "OCR 选区无效"@,
            OcrError::UnsupportedMode(mode) => "截屏模式不支持："@ + mode@,
            OcrError::WindowNotFound => "未找到可截取窗口"@,
            OcrError::CaptureWindowUnavailable => "OCR 截图窗口不可用"@,
            OcrError::MonitorUnavailable => "当前未找到可用显示器"@,
            OcrError::CaptureFailure(detail) => "截图失败："@ + detail@,
            OcrError::Http(detail) => "网络请求失败："@ + detail@,
            OcrError::Encode(detail) => "图像编码失败："@ + detail@,
            OcrError::EmptyResponse => "OCR 响应为空"@,
            OcrError::Settings(detail) => "读取设置失败："@ + detail@,
        }
    }

    /// The message to show for this error.
    pub fn message(&self) -> (text: String)
        ensures
            text@ == self.message_text(),
    {
        match self {
            OcrError::Disabled => "OCR 未启用，请先在设置中开启".to_owned(),
            OcrError::EmptyApiKey => "OCR API Key 为空".to_owned(),
            OcrError::EmptyModel => "OCR 模型名称为空".to_owned(),
            OcrError::InvalidRegion => "OCR 选区无效".to_owned(),
            OcrError::UnsupportedMode(mode) => prefixed("截屏模式不支持：", mode),
            OcrError::WindowNotFound => "未找到可截取窗口".to_owned(),
            OcrError::CaptureWindowUnavailable => "OCR 截图窗口不可用".to_owned(),
            OcrError::MonitorUnavailable => "当前未找到可用显示器".to_owned(),
            OcrError::CaptureFailure(detail) => prefixed("截图失败：", detail),
            OcrError::Http(detail) => prefixed("网络请求失败：", detail),
            OcrError::Encode(detail) => prefixed("图像编码失败：", detail),
            OcrError::EmptyResponse => "OCR 响应为空".to_owned(),
            OcrError::Settings(detail) => prefixed("读取设置失败：", detail),
        }
    }
}

fn prefixed(prefix: &str, detail: &String) -> (text: String)
    ensures
        text@ == prefix@ + detail@,
{
    let mut text = prefix.to_owned();
    text.append(detail.as_str());
    text
}

} // verus!
