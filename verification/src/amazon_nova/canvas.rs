//! One image generation: the request before the call, the images after it.
//! The call itself is the caller's.

pub mod json;

use crate::amazon_nova::canvas::json::{CanvasRequest, CanvasResponse, TextToImageParams};
use crate::file::Base64Encoding;
use crate::TraceId;
use vstd::prelude::*;
use vstd::string::StringExecFns;

verus! {

/// Why a reply brought no images.
#[derive(Debug, Clone, PartialEq, Eq)]
pub enum CanvasError {
    /// The body did not parse as the reply's shape; the raw body is kept.
    MalformedPayload(String),
    /// The model reported an error of its own.
    Reported(String),
}

/// The id under which the image model is invoked.
pub fn model_id() -> (id: &'static str)
    ensures
        id@ == "amazon.nova-canvas-v1:0"@,
{
    "amazon.nova-canvas-v1:0"
}

/// Builds the request that asks for images of `prompt`. Without a negative
/// prompt the negative text is empty, and so left out of the wire form.
pub fn text_to_image(prompt: String, negative_prompt: Option<String>) -> (request: CanvasRequest)
    ensures
        request.task_type@ == "TEXT_IMAGE"@,
        request.text_to_image_params.text@ == prompt@,
        request.text_to_image_params.negative_text@ == match negative_prompt {
            Some(text) => text@,
            None => Seq::<char>::empty(),
        },
        request.image_generation_config is None,
{
    let negative_text = match negative_prompt {
        Some(text) => text,
        None => String::new(),
    };
    CanvasRequest {
        task_type: "TEXT_IMAGE".to_string(),
        text_to_image_params: TextToImageParams { text: prompt, negative_text },
        image_generation_config: None,
    }
}

/// Whether `images` are the texts of `sent`, one for one and in order.
pub open spec fn same_images(images: Seq<Base64Encoding>, sent: Seq<String>) -> bool {
    &&& images.len() == sent.len()
    &&& forall|i: int| 0 <= i < sent.len() ==> (#[trigger] images[i])@ == sent[i]@
}

/// Reads the reply of one generation. A body that did not parse (`parsed`
/// is `None`) is malformed; an error that the model reported is handed on;
/// otherwise the images come back in the order sent, under the request id
/// as trace id (`UNKNOWN` where the transport gave none).
pub fn read_response(
    parsed: Option<CanvasResponse>,
    body: String,
    request_id: Option<String>,
) -> (outcome: Result<(TraceId, Vec<Base64Encoding>), CanvasError>)
    ensures
        match outcome {
            Ok((trace_id, images)) => {
                &&& parsed matches Some(response)
                &&& response.error is None
                &&& same_images(images@, response.images@)
                &&& trace_id@ == match request_id {
                    Some(id) => id@,
                    None => "UNKNOWN"@,
                }
            },
            Err(CanvasError::MalformedPayload(raw)) => parsed is None && raw@ == body@,
            Err(CanvasError::Reported(message)) => {
                &&& parsed matches Some(response)
                &&& response.error matches Some(reported)
                &&& reported@ == message@
            },
        },
{
    let response = match parsed {
        Some(response) => response,
        None => {
            return Err(CanvasError::MalformedPayload(body));
        },
    };
    if let Some(message) = response.error {
        return Err(CanvasError::Reported(message));
    }
    let mut images: Vec<Base64Encoding> = Vec::new();
    let mut i: usize = 0;
    while i < response.images.len()
        invariant
            i <= response.images@.len(),
            images@.len() == i,
            forall|j: int| 0 <= j < i ==> (#[trigger] images@[j])@ == response.images@[j]@,
        decreases response.images@.len() - i,
    {
        images.push(Base64Encoding::new(response.images[i].clone()));
        i += 1;
    }
    Ok((TraceId::new(request_id), images))
}

/// `text` without the slashes at its end.
pub open spec fn without_trailing_slashes(text: Seq<char>) -> Seq<char>
    decreases text.len(),
{
    if text.len() > 0 && text.last() == '/' {
        without_trailing_slashes(text.drop_last())
    } else {
        text
    }
}

/// The character of one decimal digit.
pub open spec fn digit(d: nat) -> char {
    if d == 0 {
        '0'
    } else if d == 1 {
        '1'
    } else if d == 2 {
        '2'
    } else if d == 3 {
        '3'
    } else if d == 4 {
        '4'
    } else if d == 5 {
        '5'
    } else if d == 6 {
        '6'
    } else if d == 7 {
        '7'
    } else if d == 8 {
        '8'
    } else {
        '9'
    }
}

/// The decimal digits of `n`, without leading zeros.
pub open spec fn decimal(n: nat) -> Seq<char>
    decreases n,
{
    if n < 10 {
        seq![digit(n)]
    } else {
        decimal(n / 10).push(digit(n % 10))
    }
}

/// Takes the slashes at the end of `text` away.
fn trim_slashes(text: &str) -> (trimmed: &str)
    ensures
        trimmed@ == without_trailing_slashes(text@),
{
    let mut n = text.unicode_len();
    assert(text@.subrange(0, n as int) =~= text@);
    while n > 0 && text.get_char(n - 1) == '/'
        invariant
            n <= text@.len(),
            without_trailing_slashes(text@) == without_trailing_slashes(
                text@.subrange(0, n as int),
            ),
        decreases n,
    {
        assert(text@.subrange(0, n as int).drop_last() =~= text@.subrange(0, n - 1));
        n -= 1;
    }
    text.substring_char(0, n)
}

/// The text of one decimal digit.
fn digit_text(d: usize) -> (text: &'static str)
    requires
        d < 10,
    ensures
        text@ == seq![digit(d as nat)],
{
    proof {
        reveal_strlit("0");
        reveal_strlit("1");
        reveal_strlit("2");
        reveal_strlit("3");
        reveal_strlit("4");
        reveal_strlit("5");
        reveal_strlit("6");
        reveal_strlit("7");
        reveal_strlit("8");
        reveal_strlit("9");
    }
    let text = if d == 0 {
        "0"
    } else if d == 1 {
        "1"
    } else if d == 2 {
        "2"
    } else if d == 3 {
        "3"
    } else if d == 4 {
        "4"
    } else if d == 5 {
        "5"
    } else if d == 6 {
        "6"
    } else if d == 7 {
        "7"
    } else if d == 8 {
        "8"
    } else {
        "9"
    };
    assert(text@ =~= seq![digit(d as nat)]);
    text
}

/// The decimal digits of `n`.
fn decimal_text(n: usize) -> (text: String)
    ensures
        text@ == decimal(n as nat),
    decreases n,
{
    if n < 10 {
        digit_text(n).to_string()
    } else {
        let mut text = decimal_text(n / 10);
        text.append(digit_text(n % 10));
        assert(text@ =~= decimal((n / 10) as nat).push(digit((n % 10) as nat)));
        text
    }
}

/// The path under which the image at place `index` of a reply is saved:
/// in `directory`, named by the trace id and the place.
pub fn image_path(directory: &str, trace_id: &TraceId, index: usize) -> (path: String)
    ensures
        path@ == without_trailing_slashes(directory@) + "/"@ + trace_id@ + "-"@ + decimal(
            index as nat,
        ) + ".png"@,
{
    let mut path = trim_slashes(directory).to_string();
    path.append("/");
    path.append(trace_id.as_ref());
    path.append("-");
    path.append(decimal_text(index).as_str());
    path.append(".png");
    path
}

} // verus!
