//! One invocation of a text model: the request before the call, the reply's
//! text after it. The call itself is the caller's.

use crate::decode::DecodeError;
use crate::file::{
    base64_text, extension_of, lemma_kind_follows_tables, location_of, lowercase_of,
    standard_encode, Attachment, EncodeError, Location, Type,
};
use crate::invoke_model::amazon::nova::{
    Content, Image, ImageSource, InferenceConfig, Message, Request, Response, Role, S3Location,
    SystemPrompt, Video, VideoSource,
};
use crate::TraceId;
use vstd::prelude::*;

verus! {

/// Whether this schema cannot carry the attachment. It has blocks for
/// images and videos only, and only a video may be remote: so an
/// unsupported kind, a document, an image that is not local, and a local
/// file without bytes are refused.
pub open spec fn refused(attachment: &Attachment) -> bool {
    match (attachment.reference.file_type, attachment.reference.location) {
        (Type::Image, Location::Local) => attachment.contents is None,
        (Type::Video, Location::Local) => attachment.contents is None,
        (Type::Video, Location::S3) => false,
        _ => true,
    }
}

/// Whether `error` is the one that the attachment is refused with. Every
/// error carries the path as written.
pub open spec fn rejects(attachment: &Attachment, error: &EncodeError) -> bool {
    match (attachment.reference.file_type, attachment.reference.location) {
        (Type::Unsupported, _) => {
            &&& error matches EncodeError::UnsupportedKind(p)
            &&& p@ == attachment.reference.path@
        },
        (Type::Image, Location::S3) | (Type::Document, _) => {
            &&& error matches EncodeError::UnsupportedCombination(p)
            &&& p@ == attachment.reference.path@
        },
        (Type::Image, Location::Local) | (Type::Video, Location::Local) => {
            &&& attachment.contents is None
            &&& error matches EncodeError::ReadFailure(p)
            &&& p@ == attachment.reference.path@
        },
        (Type::Video, Location::S3) => false,
    }
}

/// Whether `content` is the block that carries the attachment: the format
/// is its extension; local bytes travel as base64 text, a remote video as
/// its address.
pub open spec fn encodes(attachment: &Attachment, content: &Content) -> bool {
    let reference = attachment.reference;
    match (reference.file_type, reference.location) {
        (Type::Image, Location::Local) => {
            &&& attachment.contents matches Some(bytes)
            &&& content matches Content::Image(image)
            &&& image.format@ == reference.extension.0@
            &&& image.source.bytes@ == base64_text(bytes@)
        },
        (Type::Video, Location::Local) => {
            &&& attachment.contents matches Some(bytes)
            &&& content matches Content::Video(video)
            &&& video.format@ == reference.extension.0@
            &&& video.source matches VideoSource::Bytes(text)
            &&& text@ == base64_text(bytes@)
        },
        (Type::Video, Location::S3) => {
            &&& content matches Content::Video(video)
            &&& video.format@ == reference.extension.0@
            &&& video.source matches VideoSource::S3Location(location)
            &&& location.uri@ == reference.path@
        },
        _ => false,
    }
}

/// Turns one attachment into the content block that carries it.
pub fn encode(attachment: &Attachment) -> (outcome: Result<Content, EncodeError>)
    ensures
        match outcome {
            Ok(content) => !refused(attachment) && encodes(attachment, &content),
            Err(error) => refused(attachment) && rejects(attachment, &error),
        },
{
    let reference = &attachment.reference;
    match (reference.file_type, reference.location) {
        (Type::Image, Location::Local) => match &attachment.contents {
            Some(bytes) => Ok(
                Content::Image(
                    Image {
                        format: reference.extension.0.clone(),
                        source: ImageSource { bytes: standard_encode(bytes) },
                    },
                ),
            ),
            None => Err(EncodeError::ReadFailure(reference.path.clone())),
        },
        (Type::Video, Location::Local) => match &attachment.contents {
            Some(bytes) => Ok(
                Content::Video(
                    Video {
                        format: reference.extension.0.clone(),
                        source: VideoSource::Bytes(standard_encode(bytes)),
                    },
                ),
            ),
            None => Err(EncodeError::ReadFailure(reference.path.clone())),
        },
        (Type::Video, Location::S3) => Ok(
            Content::Video(
                Video {
                    format: reference.extension.0.clone(),
                    source: VideoSource::S3Location(S3Location { uri: reference.path.clone() }),
                },
            ),
        ),
        (Type::Unsupported, _) => Err(EncodeError::UnsupportedKind(reference.path.clone())),
        _ => Err(EncodeError::UnsupportedCombination(reference.path.clone())),
    }
}

/// Whether `content` is the user's turn for this prompt and these
/// attachments: the prompt as text first, then one block for each
/// attachment, in the order given.
pub open spec fn is_user_content(
    content: Seq<Content>,
    user_prompt: Seq<char>,
    attachments: Seq<Attachment>,
) -> bool {
    &&& content.len() == attachments.len() + 1
    &&& content[0] matches Content::Text(t)
    &&& t@ == user_prompt
    &&& forall|i: int|
        0 <= i < attachments.len() ==> encodes(&attachments[i], #[trigger] &content[i + 1])
}

/// Whether every attachment can be carried.
pub open spec fn none_refused(attachments: Seq<Attachment>) -> bool {
    forall|i: int| 0 <= i < attachments.len() ==> !refused(#[trigger] &attachments[i])
}

/// Whether `error` is that of the first attachment that is refused.
pub open spec fn is_first_rejection(attachments: Seq<Attachment>, error: &EncodeError) -> bool {
    exists|i: int|
        {
            &&& 0 <= i < attachments.len()
            &&& forall|j: int| 0 <= j < i ==> !refused(#[trigger] &attachments[j])
            &&& rejects(#[trigger] &attachments[i], error)
        }
}

/// Whether `request` is the one to send for these inputs.
pub open spec fn is_request_for(
    request: &Request,
    inference_config: Option<InferenceConfig>,
    attachments: Seq<Attachment>,
    system_prompt: Option<String>,
    assistant_prefill: Option<String>,
    user_prompt: Seq<char>,
) -> bool {
    let messages = request.messages@;
    &&& messages.len() == (if assistant_prefill is Some { 2int } else { 1int })
    &&& messages[0].role == Role::User
    &&& is_user_content(messages[0].content@, user_prompt, attachments)
    &&& assistant_prefill matches Some(prefill) ==> {
        &&& messages[1].role == Role::Assistant
        &&& messages[1].content@.len() == 1
        &&& messages[1].content@[0] matches Content::Text(t)
        &&& t@ == prefill@
    }
    &&& match system_prompt {
        Some(text) => request.system@.len() == 1 && request.system@[0].text@ == text@,
        None => request.system@.len() == 0,
    }
    &&& match inference_config {
        Some(config) => request.inference_config == config,
        None => request.inference_config.unset(),
    }
}

/// Builds the request for one invocation. The user's message comes first
/// and holds the prompt, then the attachments in order; a prefill, where
/// given, follows as the assistant's message. Nothing is built unless
/// every attachment can be carried: the first that cannot decides the
/// error.
pub fn build_request(
    inference_config: Option<InferenceConfig>,
    attachments: &Vec<Attachment>,
    system_prompt: Option<String>,
    assistant_prefill: Option<String>,
    user_prompt: String,
) -> (outcome: Result<Request, EncodeError>)
    ensures
        match outcome {
            Ok(request) => is_request_for(
                &request,
                inference_config,
                attachments@,
                system_prompt,
                assistant_prefill,
                user_prompt@,
            ),
            Err(error) => is_first_rejection(attachments@, &error),
        },
        outcome is Ok <==> none_refused(attachments@),
        outcome matches Ok(request) ==> request.messages@[0].role == Role::User,
        outcome matches Ok(request) ==> (inference_config is None
            ==> request.inference_config.unset()),
{
    let mut user_content: Vec<Content> = Vec::new();
    user_content.push(Content::Text(user_prompt));
    let mut i: usize = 0;
    while i < attachments.len()
        invariant
            i <= attachments@.len(),
            user_content@.len() == i + 1,
            user_content@[0] matches Content::Text(t) && t@ == user_prompt@,
            forall|j: int| 0 <= j < i ==> !refused(#[trigger] &attachments@[j]),
            forall|j: int|
                0 <= j < i ==> encodes(&attachments@[j], #[trigger] &user_content@[j + 1]),
        decreases attachments@.len() - i,
    {
        match encode(&attachments[i]) {
            Ok(content) => {
                user_content.push(content);
            },
            Err(error) => {
                return Err(error);
            },
        }
        i += 1;
    }
    let mut messages: Vec<Message> = Vec::new();
    messages.push(Message { role: Role::User, content: user_content });
    if let Some(prefill) = assistant_prefill {
        let mut reply: Vec<Content> = Vec::new();
        reply.push(Content::Text(prefill));
        messages.push(Message { role: Role::Assistant, content: reply });
    }
    let mut system: Vec<SystemPrompt> = Vec::new();
    if let Some(text) = system_prompt {
        system.push(SystemPrompt { text });
    }
    let inference_config = match inference_config {
        Some(config) => config,
        None => InferenceConfig::default(),
    };
    Ok(Request { system, messages, inference_config })
}

/// A local file whose extension is `png` in any case, read in full, is
/// carried as an image of format `png` with the base64 text of exactly the
/// bytes read.
pub proof fn lemma_local_png_is_carried_as_image(
    attachment: Attachment,
    path: Seq<char>,
    content: Content,
)
    requires
        attachment.reference.describes(path),
        lowercase_of(extension_of(path)) == "png"@,
        location_of(path) == Location::Local,
        attachment.contents is Some,
    ensures
        !refused(&attachment),
        encodes(&attachment, &content) ==> {
            &&& content matches Content::Image(image)
            &&& image.format@ == "png"@
            &&& image.source.bytes@ == base64_text(attachment.contents->Some_0@)
        },
{
}

/// A remote file whose extension is `webm` in any case is carried as a
/// video of format `webm` by its address, whether or not any bytes were
/// read.
pub proof fn lemma_remote_webm_is_carried_by_reference(
    attachment: Attachment,
    path: Seq<char>,
    content: Content,
)
    requires
        attachment.reference.describes(path),
        lowercase_of(extension_of(path)) == "webm"@,
        location_of(path) == Location::S3,
    ensures
        !refused(&attachment),
        encodes(&attachment, &content) ==> {
            &&& content matches Content::Video(video)
            &&& video.format@ == "webm"@
            &&& video.source matches VideoSource::S3Location(location)
            &&& location.uri@ == path
        },
{
    lemma_kind_follows_tables("webm"@);
}

/// Reads the reply of one invocation, which is to hold one text and
/// nothing else. A body that did not parse (`parsed` is `None`) is
/// malformed, and so is a reply of the assistant without content; either
/// way the body is handed back in the error. Otherwise the reply's message
/// decides. The trace id is the request id, or `UNKNOWN` where the
/// transport gave none.
pub fn read_response(parsed: Option<Response>, body: String, request_id: Option<String>) -> (outcome:
    Result<(TraceId, String), DecodeError>)
    ensures
        match (parsed, outcome) {
            (None, Err(DecodeError::MalformedPayload(raw))) => raw@ == body@,
            (Some(response), Ok((trace_id, text))) => {
                &&& response.output.message.content@.len() > 0
                &&& response.output.message.decoded() == Ok::<Seq<char>, DecodeError>(text@)
                &&& trace_id@ == match request_id {
                    Some(id) => id@,
                    None => "UNKNOWN"@,
                }
            },
            (Some(response), Err(error)) => if response.output.message.role == Role::Assistant
                && response.output.message.content@.len() == 0 {
                &&& error matches DecodeError::MalformedPayload(raw)
                &&& raw@ == body@
            } else {
                response.output.message.decoded() == Err::<Seq<char>, DecodeError>(error)
            },
            _ => false,
        },
{
    match parsed {
        None => Err(DecodeError::MalformedPayload(body)),
        Some(response) => match response.output.message.display_text() {
            Ok(text) => if response.output.message.content.len() == 0 {
                Err(DecodeError::MalformedPayload(body))
            } else {
                Ok((TraceId::new(request_id), text))
            },
            Err(error) => Err(error),
        },
    }
}

} // verus!
