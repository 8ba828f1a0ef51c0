//! Amazon Nova Lite from command-line arguments: which files the arguments
//! name, the request that carries them, and the rendering of the reply.

use crate::decode::DecodeError;
use crate::file::{
    base64_text, extension_of, get_lowercase_extension, lowercase_of, standard_encode,
};
use vstd::prelude::*;

pub use crate::invoke_model::amazon::nova::{
    Content, Image, ImageSource, InferenceConfig, Message, Output, Request, Response, Role,
    S3Location, SystemPrompt, Usage, Video, VideoSource,
};

verus! {

/// The arguments of one invocation.
#[derive(Debug, Clone, PartialEq, Eq)]
pub struct NovaLiteArgs {
    /// System prompt.
    pub system: Option<String>,
    /// Prefilled start of the assistant's answer.
    pub assistant: Option<String>,
    /// Paths of images to send inline.
    pub image: Vec<String>,
    /// Paths of videos to send inline.
    pub video: Vec<String>,
    /// Addresses of videos to send by reference.
    pub uri_video: Vec<String>,
    /// User prompt.
    pub user: String,
}

/// Where a medium of the reply was saved.
#[derive(Debug, Clone, PartialEq, Eq)]
pub enum DownloadLocation {
    Image(String),
    Video(String),
}

/// A file that the arguments name and the caller could not read.
#[derive(Debug, Clone, PartialEq, Eq)]
pub struct ReadFailure(pub String);

/// The model id under which to invoke, and the request.
#[derive(Debug, Clone, PartialEq, Eq)]
pub struct NovaBedrock(&'static str, Request);

/// Whether `content` carries the file at `path` with these bytes inline,
/// as an image or as a video: the format is the extension in lower case.
pub open spec fn is_inline(content: &Content, video: bool, path: Seq<char>, bytes: Seq<u8>) -> bool {
    if video {
        &&& content matches Content::Video(v)
        &&& v.format@ == lowercase_of(extension_of(path))
        &&& v.source matches VideoSource::Bytes(text)
        &&& text@ == base64_text(bytes)
    } else {
        &&& content matches Content::Image(i)
        &&& i.format@ == lowercase_of(extension_of(path))
        &&& i.source.bytes@ == base64_text(bytes)
    }
}

/// Whether `content` refers to the video at `uri`.
pub open spec fn is_remote(content: &Content, uri: Seq<char>) -> bool {
    &&& content matches Content::Video(v)
    &&& v.format@ == lowercase_of(extension_of(uri))
    &&& v.source matches VideoSource::S3Location(location)
    &&& location.uri@ == uri
}

/// Whether the caller has the bytes of every file up to `n` of `paths`.
pub open spec fn all_read(paths: Seq<String>, files: Seq<Option<Vec<u8>>>, n: int) -> bool {
    forall|i: int| 0 <= i < n ==> i < files.len() && (#[trigger] files[i]) is Some
}

/// Whether `path` is the first of `paths` whose bytes are missing.
pub open spec fn is_first_unread(
    paths: Seq<String>,
    files: Seq<Option<Vec<u8>>>,
    path: Seq<char>,
) -> bool {
    exists|i: int|
        {
            &&& 0 <= i < paths.len()
            &&& all_read(paths, files, i)
            &&& i >= files.len() || files[i] is None
            &&& (#[trigger] paths[i])@ == path
        }
}

/// Whether `content` is the user's turn for these arguments: the prompt,
/// then the images, the videos and the remote videos, each group in the
/// order given.
pub open spec fn is_user_content(
    content: Seq<Content>,
    args: &NovaLiteArgs,
    images: Seq<Option<Vec<u8>>>,
    videos: Seq<Option<Vec<u8>>>,
) -> bool {
    let n = args.image@.len();
    let m = args.video@.len();
    &&& content.len() == 1 + n + m + args.uri_video@.len()
    &&& content[0] matches Content::Text(t)
    &&& t@ == args.user@
    &&& forall|i: int|
        0 <= i < n ==> is_inline(
            #[trigger] &content[1 + i],
            false,
            args.image@[i]@,
            images[i]->Some_0@,
        )
    &&& forall|i: int|
        0 <= i < m ==> is_inline(
            #[trigger] &content[1 + n + i],
            true,
            args.video@[i]@,
            videos[i]->Some_0@,
        )
    &&& forall|i: int|
        0 <= i < args.uri_video@.len() ==> is_remote(
            #[trigger] &content[1 + n + m + i],
            args.uri_video@[i]@,
        )
}

/// Whether `request` is the one to send for these arguments.
pub open spec fn is_request_for(
    request: &Request,
    args: &NovaLiteArgs,
    images: Seq<Option<Vec<u8>>>,
    videos: Seq<Option<Vec<u8>>>,
) -> bool {
    let messages = request.messages@;
    &&& messages.len() == (if args.assistant is Some { 2int } else { 1int })
    &&& messages[0].role == Role::User
    &&& is_user_content(messages[0].content@, args, images, videos)
    &&& args.assistant matches Some(prefill) ==> {
        &&& messages[1].role == Role::Assistant
        &&& messages[1].content@.len() == 1
        &&& messages[1].content@[0] matches Content::Text(t)
        &&& t@ == prefill@
    }
    &&& match args.system {
        Some(text) => request.system@.len() == 1 && request.system@[0].text@ == text@,
        None => request.system@.len() == 0,
    }
    &&& request.inference_config.unset()
}

impl NovaBedrock {
    pub closed spec fn spec_model_id(&self) -> &'static str {
        self.0
    }

    pub closed spec fn spec_request(&self) -> &Request {
        &self.1
    }

    /// Builds the request from the arguments. `images` and `videos` hold
    /// the bytes of the files that `value.image` and `value.video` name,
    /// place by place; a place that is missing or `None` is a file that
    /// could not be read, and the first such file, images before videos,
    /// is the error. The model is invoked through its cross-region
    /// inference profile.
    pub fn from(
        value: &NovaLiteArgs,
        images: &Vec<Option<Vec<u8>>>,
        videos: &Vec<Option<Vec<u8>>>,
    ) -> (outcome: Result<NovaBedrock, ReadFailure>)
        ensures
            match outcome {
                Ok(built) => {
                    &&& all_read(value.image@, images@, value.image@.len() as int)
                    &&& all_read(value.video@, videos@, value.video@.len() as int)
                    &&& built.spec_model_id()@ == "us.amazon.nova-lite-v1:0"@
                    &&& is_request_for(built.spec_request(), value, images@, videos@)
                },
                Err(failure) => {
                    ||| is_first_unread(value.image@, images@, failure.0@)
                    ||| (all_read(value.image@, images@, value.image@.len() as int)
                        && is_first_unread(value.video@, videos@, failure.0@))
                },
            },
            outcome is Ok <==> all_read(value.image@, images@, value.image@.len() as int)
                && all_read(value.video@, videos@, value.video@.len() as int),
            outcome matches Ok(built) ==> built.spec_request().messages@[0].role == Role::User,
            outcome matches Ok(built) ==> built.spec_request().inference_config.unset(),
    {
        let mut user_content: Vec<Content> = Vec::new();
        user_content.push(Content::Text(value.user.clone()));
        let n = value.image.len();
        let m = value.video.len();
        let mut i: usize = 0;
        while i < n
            invariant
                i <= n,
                n == value.image@.len(),
                user_content@.len() == 1 + i,
                user_content@[0] matches Content::Text(t) && t@ == value.user@,
                all_read(value.image@, images@, i as int),
                forall|j: int|
                    0 <= j < i ==> is_inline(
                        #[trigger] &user_content@[1 + j],
                        false,
                        value.image@[j]@,
                        images@[j]->Some_0@,
                    ),
            decreases n - i,
        {
            let path = &value.image[i];
            if i >= images.len() {
                return Err(ReadFailure(path.clone()));
            }
            match &images[i] {
                None => {
                    return Err(ReadFailure(path.clone()));
                },
                Some(bytes) => {
                    let format = get_lowercase_extension(path.as_str());
                    let source = ImageSource { bytes: standard_encode(bytes) };
                    user_content.push(Content::Image(Image { format, source }));
                },
            }
            i += 1;
        }
        let mut i: usize = 0;
        while i < m
            invariant
                i <= m,
                n == value.image@.len(),
                m == value.video@.len(),
                user_content@.len() == 1 + n + i,
                user_content@[0] matches Content::Text(t) && t@ == value.user@,
                all_read(value.image@, images@, n as int),
                all_read(value.video@, videos@, i as int),
                forall|j: int|
                    0 <= j < n ==> is_inline(
                        #[trigger] &user_content@[1 + j],
                        false,
                        value.image@[j]@,
                        images@[j]->Some_0@,
                    ),
                forall|j: int|
                    0 <= j < i ==> is_inline(
                        #[trigger] &user_content@[1 + n + j],
                        true,
                        value.video@[j]@,
                        videos@[j]->Some_0@,
                    ),
            decreases m - i,
        {
            let path = &value.video[i];
            if i >= videos.len() {
                return Err(ReadFailure(path.clone()));
            }
            match &videos[i] {
                None => {
                    return Err(ReadFailure(path.clone()));
                },
                Some(bytes) => {
                    let format = get_lowercase_extension(path.as_str());
                    let source = VideoSource::Bytes(standard_encode(bytes));
                    user_content.push(Content::Video(Video { format, source }));
                },
            }
            i += 1;
        }
        let k = value.uri_video.len();
        let mut i: usize = 0;
        while i < k
            invariant
                i <= k,
                n == value.image@.len(),
                m == value.video@.len(),
                k == value.uri_video@.len(),
                user_content@.len() == 1 + n + m + i,
                user_content@[0] matches Content::Text(t) && t@ == value.user@,
                forall|j: int|
                    0 <= j < n ==> is_inline(
                        #[trigger] &user_content@[1 + j],
                        false,
                        value.image@[j]@,
                        images@[j]->Some_0@,
                    ),
                forall|j: int|
                    0 <= j < m ==> is_inline(
                        #[trigger] &user_content@[1 + n + j],
                        true,
                        value.video@[j]@,
                        videos@[j]->Some_0@,
                    ),
                forall|j: int|
                    0 <= j < i ==> is_remote(
                        #[trigger] &user_content@[1 + n + m + j],
                        value.uri_video@[j]@,
                    ),
            decreases k - i,
        {
            let uri = &value.uri_video[i];
            let format = get_lowercase_extension(uri.as_str());
            let source = VideoSource::S3Location(S3Location { uri: uri.clone() });
            user_content.push(Content::Video(Video { format, source }));
            i += 1;
        }
        let mut messages: Vec<Message> = Vec::new();
        messages.push(Message { role: Role::User, content: user_content });
        if let Some(prefill) = &value.assistant {
            let mut reply: Vec<Content> = Vec::new();
            reply.push(Content::Text(prefill.clone()));
            messages.push(Message { role: Role::Assistant, content: reply });
        }
        let mut system: Vec<SystemPrompt> = Vec::new();
        if let Some(prompt) = &value.system {
            system.push(SystemPrompt { text: prompt.clone() });
        }
        let request = Request { system, messages, inference_config: InferenceConfig::default() };
        Ok(NovaBedrock("us.amazon.nova-lite-v1:0", request))
    }

    /// Gives up the model id and the request.
    pub fn unwrap(self) -> (parts: (&'static str, Request))
        ensures
            parts.0 == self.spec_model_id(),
            parts.1 == *self.spec_request(),
    {
        (self.0, self.1)
    }

    pub fn model_id(&self) -> (id: &str)
        ensures
            id == self.spec_model_id(),
    {
        self.0
    }

    /// The request whose wire form is the body to send.
    pub fn request(&self) -> (request: &Request)
        ensures
            request == self.spec_request(),
    {
        &self.1
    }

    /// Renders the reply. A body that did not parse (`parsed` is `None`)
    /// is malformed and handed back in the error; otherwise the reply's
    /// message decides the text. No medium is saved.
    pub fn render_response(&self, parsed: Option<Response>, body: String) -> (outcome: Result<
        (String, Vec<DownloadLocation>),
        DecodeError,
    >)
        ensures
            match outcome {
                Ok((text, locations)) => {
                    &&& parsed matches Some(response)
                    &&& response.output.message.decoded() == Ok::<Seq<char>, DecodeError>(text@)
                    &&& locations@.len() == 0
                },
                Err(error) => match parsed {
                    Some(response) => response.output.message.decoded() == Err::<
                        Seq<char>,
                        DecodeError,
                    >(error),
                    None => {
                        &&& error matches DecodeError::MalformedPayload(raw)
                        &&& raw@ == body@
                    },
                },
            },
    {
        match parsed {
            None => Err(DecodeError::MalformedPayload(body)),
            Some(response) => match response.output.message.display_text() {
                Ok(text) => Ok((text, Vec::new())),
                Err(error) => Err(error),
            },
        }
    }
}

} // verus!
