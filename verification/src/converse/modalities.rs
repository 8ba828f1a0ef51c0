//! Typed media for conversation. Callers name a path; the functions here
//! work out the block that carries it.

use crate::decode::{Block, Modality};
use crate::file::{
    extension_of, kind_of, lemma_kind_follows_tables, location_of, lowercase, lowercase_of,
    same_text, Attachment, EncodeError, FileReference, Location, Type,
};
use vstd::prelude::*;

verus! {

/// A path to attach, as the user wrote it.
#[derive(Debug, Clone, PartialEq, Eq)]
pub struct AttachmentPath(pub String);

/// The path could not be attached; it is carried as written.
#[derive(Debug, Clone, PartialEq, Eq)]
pub struct InvalidPath(pub String);

#[derive(Debug, Clone, Copy, PartialEq, Eq, Structural)]
pub enum ImageFormat {
    Gif,
    Jpeg,
    Png,
    Webp,
}

#[derive(Debug, Clone, Copy, PartialEq, Eq, Structural)]
pub enum VideoFormat {
    Flv,
    Mkv,
    Mov,
    Mp4,
    Mpg,
    Mpeg,
    ThreeGp,
    Webm,
    Wmv,
}

#[derive(Debug, Clone, Copy, PartialEq, Eq, Structural)]
pub enum DocumentFormat {
    Csv,
    Doc,
    Docx,
    Html,
    Md,
    Pdf,
    Txt,
    Xls,
    Xlsx,
}

#[derive(Debug, Clone, PartialEq, Eq)]
pub struct S3Location {
    pub uri: String,
}

/// An image travels as bytes only.
#[derive(Debug, Clone, PartialEq, Eq)]
pub enum ImageSource {
    Bytes(Vec<u8>),
}

#[derive(Debug, Clone, PartialEq, Eq)]
pub enum VideoSource {
    Bytes(Vec<u8>),
    S3Location(S3Location),
}

/// A document travels as bytes only.
#[derive(Debug, Clone, PartialEq, Eq)]
pub enum DocumentSource {
    Bytes(Vec<u8>),
}

#[derive(Debug, Clone, PartialEq, Eq)]
pub struct ImageBlock {
    pub format: ImageFormat,
    pub source: ImageSource,
}

#[derive(Debug, Clone, PartialEq, Eq)]
pub struct VideoBlock {
    pub format: VideoFormat,
    pub source: VideoSource,
}

#[derive(Debug, Clone, PartialEq, Eq)]
pub struct DocumentBlock {
    pub format: DocumentFormat,
    pub name: String,
    pub source: DocumentSource,
}

/// One unit of a message. What is sent is text or a medium. In a reply,
/// a block that is not text counts by its kind alone, and a reply that
/// holds one is refused.
#[derive(Debug, Clone, PartialEq, Eq)]
pub enum ContentBlock {
    Text(String),
    Image(ImageBlock),
    Video(VideoBlock),
    Document(DocumentBlock),
    /// A block of a reply that is not text, by its kind.
    Other(Modality),
}

/// The image format that a lowercased extension names.
pub open spec fn image_format_of(ext: Seq<char>) -> Option<ImageFormat> {
    if ext == "gif"@ {
        Some(ImageFormat::Gif)
    } else if ext == "jpeg"@ || ext == "jpg"@ {
        Some(ImageFormat::Jpeg)
    } else if ext == "png"@ {
        Some(ImageFormat::Png)
    } else if ext == "webp"@ {
        Some(ImageFormat::Webp)
    } else {
        None
    }
}

/// The video format that a lowercased extension names.
pub open spec fn video_format_of(ext: Seq<char>) -> Option<VideoFormat> {
    if ext == "flv"@ {
        Some(VideoFormat::Flv)
    } else if ext == "mkv"@ {
        Some(VideoFormat::Mkv)
    } else if ext == "mov"@ {
        Some(VideoFormat::Mov)
    } else if ext == "mp4"@ {
        Some(VideoFormat::Mp4)
    } else if ext == "mpg"@ {
        Some(VideoFormat::Mpg)
    } else if ext == "mpeg"@ {
        Some(VideoFormat::Mpeg)
    } else if ext == "3gp"@ {
        Some(VideoFormat::ThreeGp)
    } else if ext == "webm"@ {
        Some(VideoFormat::Webm)
    } else if ext == "wmv"@ {
        Some(VideoFormat::Wmv)
    } else {
        None
    }
}

/// The document format that a lowercased extension names.
pub open spec fn document_format_of(ext: Seq<char>) -> Option<DocumentFormat> {
    if ext == "csv"@ {
        Some(DocumentFormat::Csv)
    } else if ext == "doc"@ {
        Some(DocumentFormat::Doc)
    } else if ext == "docx"@ {
        Some(DocumentFormat::Docx)
    } else if ext == "html"@ {
        Some(DocumentFormat::Html)
    } else if ext == "md"@ {
        Some(DocumentFormat::Md)
    } else if ext == "pdf"@ {
        Some(DocumentFormat::Pdf)
    } else if ext == "txt"@ {
        Some(DocumentFormat::Txt)
    } else if ext == "xls"@ {
        Some(DocumentFormat::Xls)
    } else if ext == "xlsx"@ {
        Some(DocumentFormat::Xlsx)
    } else {
        None
    }
}

impl VideoFormat {
    /// The video format that an extension in lower case names.
    pub fn of_extension(ext: &str) -> (found: Option<VideoFormat>)
        ensures
            found == video_format_of(ext@),
    {
        if same_text(ext, "flv") {
            Some(VideoFormat::Flv)
        } else if same_text(ext, "mkv") {
            Some(VideoFormat::Mkv)
        } else if same_text(ext, "mov") {
            Some(VideoFormat::Mov)
        } else if same_text(ext, "mp4") {
            Some(VideoFormat::Mp4)
        } else if same_text(ext, "mpg") {
            Some(VideoFormat::Mpg)
        } else if same_text(ext, "mpeg") {
            Some(VideoFormat::Mpeg)
        } else if same_text(ext, "3gp") {
            Some(VideoFormat::ThreeGp)
        } else if same_text(ext, "webm") {
            Some(VideoFormat::Webm)
        } else if same_text(ext, "wmv") {
            Some(VideoFormat::Wmv)
        } else {
            None
        }
    }
}

/// The video format that an extension names, whatever its case.
pub fn video_fmt(format: &str) -> (found: Option<VideoFormat>)
    ensures
        found == video_format_of(lowercase_of(format@)),
{
    VideoFormat::of_extension(lowercase(format).as_str())
}

impl ImageFormat {
    /// The image format that an extension in lower case names.
    pub fn of_extension(ext: &str) -> (found: Option<ImageFormat>)
        ensures
            found == image_format_of(ext@),
    {
        if same_text(ext, "gif") {
            Some(ImageFormat::Gif)
        } else if same_text(ext, "jpeg") || same_text(ext, "jpg") {
            Some(ImageFormat::Jpeg)
        } else if same_text(ext, "png") {
            Some(ImageFormat::Png)
        } else if same_text(ext, "webp") {
            Some(ImageFormat::Webp)
        } else {
            None
        }
    }
}

/// The image format that an extension names, whatever its case.
pub fn image_fmt(format: &str) -> (found: Option<ImageFormat>)
    ensures
        found == image_format_of(lowercase_of(format@)),
{
    ImageFormat::of_extension(lowercase(format).as_str())
}

impl DocumentFormat {
    /// The document format that an extension in lower case names.
    pub fn of_extension(ext: &str) -> (found: Option<DocumentFormat>)
        ensures
            found == document_format_of(ext@),
    {
        if same_text(ext, "csv") {
            Some(DocumentFormat::Csv)
        } else if same_text(ext, "doc") {
            Some(DocumentFormat::Doc)
        } else if same_text(ext, "docx") {
            Some(DocumentFormat::Docx)
        } else if same_text(ext, "html") {
            Some(DocumentFormat::Html)
        } else if same_text(ext, "md") {
            Some(DocumentFormat::Md)
        } else if same_text(ext, "pdf") {
            Some(DocumentFormat::Pdf)
        } else if same_text(ext, "txt") {
            Some(DocumentFormat::Txt)
        } else if same_text(ext, "xls") {
            Some(DocumentFormat::Xls)
        } else if same_text(ext, "xlsx") {
            Some(DocumentFormat::Xlsx)
        } else {
            None
        }
    }
}

/// The document format that an extension names, whatever its case.
pub fn doc_fmt(format: &str) -> (found: Option<DocumentFormat>)
    ensures
        found == document_format_of(lowercase_of(format@)),
{
    DocumentFormat::of_extension(lowercase(format).as_str())
}

/// The extension of the reference, by which its format is looked up.
pub open spec fn format_key(reference: &FileReference) -> Seq<char> {
    reference.extension.0@
}

/// Whether the attachment cannot be carried: its kind is unsupported or
/// cannot come from its location, its extension names no format of its
/// kind, or it is local and its bytes are missing.
pub open spec fn refused(attachment: &Attachment) -> bool {
    let reference = &attachment.reference;
    match (reference.file_type, reference.location) {
        (Type::Image, Location::Local) => image_format_of(format_key(reference)) is None
            || attachment.contents is None,
        (Type::Video, Location::Local) => video_format_of(format_key(reference)) is None
            || attachment.contents is None,
        (Type::Video, Location::S3) => video_format_of(format_key(reference)) is None,
        (Type::Document, Location::Local) => document_format_of(format_key(reference)) is None
            || attachment.contents is None,
        _ => true,
    }
}

/// Whether `error` is the one that the attachment is refused with: the
/// kind is looked at first, then the location, then the format, and the
/// bytes last. Every error carries the path as written.
pub open spec fn rejects(attachment: &Attachment, error: &EncodeError) -> bool {
    let reference = &attachment.reference;
    &&& error.path() == reference.path@
    &&& match (reference.file_type, reference.location) {
        (Type::Unsupported, _) => error is UnsupportedKind,
        (Type::Image, Location::S3) | (Type::Document, Location::S3) => error is UnsupportedCombination,
        (Type::Image, Location::Local) => if image_format_of(format_key(reference)) is None {
            error is UnsupportedKind
        } else {
            attachment.contents is None && error is ReadFailure
        },
        (Type::Video, Location::Local) => if video_format_of(format_key(reference)) is None {
            error is UnsupportedKind
        } else {
            attachment.contents is None && error is ReadFailure
        },
        (Type::Video, Location::S3) => video_format_of(format_key(reference)) is None
            && error is UnsupportedKind,
        (Type::Document, Location::Local) => if document_format_of(format_key(reference)) is None {
            error is UnsupportedKind
        } else {
            attachment.contents is None && error is ReadFailure
        },
    }
}

/// Whether `block` is the one that carries the attachment: the format by
/// its extension; local bytes as they are, a remote video by its address;
/// a document under its file stem.
pub open spec fn carries(attachment: &Attachment, block: &ContentBlock) -> bool {
    let reference = &attachment.reference;
    match (reference.file_type, reference.location) {
        (Type::Image, Location::Local) => {
            &&& attachment.contents matches Some(bytes)
            &&& block matches ContentBlock::Image(image)
            &&& Some(image.format) == image_format_of(format_key(reference))
            &&& image.source matches ImageSource::Bytes(sent)
            &&& sent@ == bytes@
        },
        (Type::Video, Location::Local) => {
            &&& attachment.contents matches Some(bytes)
            &&& block matches ContentBlock::Video(video)
            &&& Some(video.format) == video_format_of(format_key(reference))
            &&& video.source matches VideoSource::Bytes(sent)
            &&& sent@ == bytes@
        },
        (Type::Video, Location::S3) => {
            &&& block matches ContentBlock::Video(video)
            &&& Some(video.format) == video_format_of(format_key(reference))
            &&& video.source matches VideoSource::S3Location(location)
            &&& location.uri@ == reference.path@
        },
        (Type::Document, Location::Local) => {
            &&& attachment.contents matches Some(bytes)
            &&& block matches ContentBlock::Document(document)
            &&& Some(document.format) == document_format_of(format_key(reference))
            &&& document.name@ == reference.stem.0@
            &&& document.source matches DocumentSource::Bytes(sent)
            &&& sent@ == bytes@
        },
        _ => false,
    }
}

/// Whether `attachment` is the classification of `path` together with
/// these bytes.
pub open spec fn is_attachment_of(
    attachment: &Attachment,
    path: Seq<char>,
    contents: Option<Vec<u8>>,
) -> bool {
    attachment.reference.describes(path) && attachment.contents == contents
}

impl ContentBlock {
    /// The block as the decoder of replies sees it.
    pub open spec fn block(&self) -> Block {
        match self {
            ContentBlock::Text(t) => Block::Text(t@),
            ContentBlock::Image(_) => Block::Other(Modality::Image),
            ContentBlock::Video(_) => Block::Other(Modality::Video),
            ContentBlock::Document(_) => Block::Other(Modality::Document),
            ContentBlock::Other(kind) => Block::Other(*kind),
        }
    }

    /// The text of a text block, or the kind of any other.
    pub fn as_text(&self) -> (text: Result<&String, Modality>)
        ensures
            match text {
                Ok(t) => self.block() == Block::Text(t@),
                Err(kind) => self.block() == Block::Other(kind),
            },
    {
        match self {
            ContentBlock::Text(t) => Ok(t),
            ContentBlock::Image(_) => Err(Modality::Image),
            ContentBlock::Video(_) => Err(Modality::Video),
            ContentBlock::Document(_) => Err(Modality::Document),
            ContentBlock::Other(kind) => Err(*kind),
        }
    }

    /// Turns one attachment into the block that carries it.
    pub fn encode(attachment: &Attachment) -> (outcome: Result<ContentBlock, EncodeError>)
        ensures
            match outcome {
                Ok(block) => !refused(attachment) && carries(attachment, &block),
                Err(error) => refused(attachment) && rejects(attachment, &error),
            },
    {
        let reference = &attachment.reference;
        match (reference.file_type, reference.location) {
            (Type::Image, Location::Local) => {
                let format = match ImageFormat::of_extension(reference.extension.0.as_str()) {
                    Some(format) => format,
                    None => {
                        return Err(EncodeError::UnsupportedKind(reference.path.clone()));
                    },
                };
                match &attachment.contents {
                    Some(bytes) => Ok(
                        ContentBlock::Image(
                            ImageBlock { format, source: ImageSource::Bytes(bytes.clone()) },
                        ),
                    ),
                    None => Err(EncodeError::ReadFailure(reference.path.clone())),
                }
            },
            (Type::Video, Location::Local) => {
                let format = match VideoFormat::of_extension(reference.extension.0.as_str()) {
                    Some(format) => format,
                    None => {
                        return Err(EncodeError::UnsupportedKind(reference.path.clone()));
                    },
                };
                match &attachment.contents {
                    Some(bytes) => Ok(
                        ContentBlock::Video(
                            VideoBlock { format, source: VideoSource::Bytes(bytes.clone()) },
                        ),
                    ),
                    None => Err(EncodeError::ReadFailure(reference.path.clone())),
                }
            },
            (Type::Video, Location::S3) => {
                let format = match VideoFormat::of_extension(reference.extension.0.as_str()) {
                    Some(format) => format,
                    None => {
                        return Err(EncodeError::UnsupportedKind(reference.path.clone()));
                    },
                };
                let location = S3Location { uri: reference.path.clone() };
                Ok(ContentBlock::Video(VideoBlock { format, source: VideoSource::S3Location(location) }))
            },
            (Type::Document, Location::Local) => {
                let format = match DocumentFormat::of_extension(reference.extension.0.as_str()) {
                    Some(format) => format,
                    None => {
                        return Err(EncodeError::UnsupportedKind(reference.path.clone()));
                    },
                };
                match &attachment.contents {
                    Some(bytes) => Ok(
                        ContentBlock::Document(
                            DocumentBlock {
                                format,
                                name: reference.stem.0.clone(),
                                source: DocumentSource::Bytes(bytes.clone()),
                            },
                        ),
                    ),
                    None => Err(EncodeError::ReadFailure(reference.path.clone())),
                }
            },
            (Type::Unsupported, _) => Err(EncodeError::UnsupportedKind(reference.path.clone())),
            _ => Err(EncodeError::UnsupportedCombination(reference.path.clone())),
        }
    }

    /// Classifies the path and turns it into the block that carries it,
    /// with `contents` as the bytes of the file where the caller has read
    /// them. Whatever the reason of a refusal, the path comes back as
    /// written.
    pub fn try_from(value: AttachmentPath, contents: Option<Vec<u8>>) -> (outcome: Result<
        ContentBlock,
        InvalidPath,
    >)
        ensures
            match outcome {
                Ok(block) => exists|attachment: Attachment|
                    #[trigger] is_attachment_of(&attachment, value.0@, contents) && !refused(
                        &attachment,
                    ) && carries(&attachment, &block),
                Err(invalid) => invalid.0@ == value.0@ && exists|attachment: Attachment|
                    #[trigger] is_attachment_of(&attachment, value.0@, contents) && refused(
                        &attachment,
                    ),
            },
    {
        let attachment = Attachment { reference: FileReference::from(value.0), contents };
        assert(is_attachment_of(&attachment, value.0@, contents));
        match ContentBlock::encode(&attachment) {
            Ok(block) => Ok(block),
            Err(error) => Err(InvalidPath(error.into_path())),
        }
    }
}

/// The tables of kinds and of formats agree. So of a classified reference
/// an attachment is refused for three reasons only: the kind is
/// unsupported, or it is remote and not a video, or it is local and its
/// bytes are missing.
pub proof fn lemma_refusal_of_a_classified_attachment(attachment: Attachment, path: Seq<char>)
    requires
        attachment.reference.describes(path),
    ensures
        refused(&attachment) <==> {
            ||| attachment.reference.file_type == Type::Unsupported
            ||| attachment.reference.location == Location::S3 && attachment.reference.file_type
                != Type::Video
            ||| attachment.reference.location == Location::Local && attachment.contents is None
        },
{
    lemma_kind_follows_tables(format_key(&attachment.reference));
}

/// Each table of formats names exactly the extensions of its kind.
pub proof fn lemma_formats_follow_kinds(ext: Seq<char>)
    ensures
        image_format_of(ext) is Some <==> kind_of(ext) == Type::Image,
        video_format_of(ext) is Some <==> kind_of(ext) == Type::Video,
        document_format_of(ext) is Some <==> kind_of(ext) == Type::Document,
{
    lemma_kind_follows_tables(ext);
}

/// A local file whose extension is `png` in any case, read in full, is
/// carried as an image in that format with exactly the bytes read.
pub proof fn lemma_local_png_is_carried_as_image(
    attachment: Attachment,
    path: Seq<char>,
    block: ContentBlock,
)
    requires
        attachment.reference.describes(path),
        lowercase_of(extension_of(path)) == "png"@,
        location_of(path) == Location::Local,
        attachment.contents is Some,
    ensures
        !refused(&attachment),
        carries(&attachment, &block) ==> {
            &&& block matches ContentBlock::Image(image)
            &&& image.format == ImageFormat::Png
            &&& image.source matches ImageSource::Bytes(sent)
            &&& sent@ == attachment.contents->Some_0@
        },
{
    reveal_strlit("png");
    reveal_strlit("gif");
    reveal_strlit("jpeg");
    reveal_strlit("jpg");
    let first = "png"@[0];
}

/// A remote file whose extension is `webm` in any case is carried as a
/// video by its address, whether or not any bytes were read.
pub proof fn lemma_remote_webm_is_carried_by_reference(
    attachment: Attachment,
    path: Seq<char>,
    block: ContentBlock,
)
    requires
        attachment.reference.describes(path),
        lowercase_of(extension_of(path)) == "webm"@,
        location_of(path) == Location::S3,
    ensures
        !refused(&attachment),
        carries(&attachment, &block) ==> {
            &&& block matches ContentBlock::Video(video)
            &&& video.format == VideoFormat::Webm
            &&& video.source matches VideoSource::S3Location(location)
            &&& location.uri@ == path
        },
{
    lemma_kind_follows_tables("webm"@);
    reveal_strlit("webm");
    reveal_strlit("flv");
    reveal_strlit("mkv");
    reveal_strlit("mov");
    reveal_strlit("mp4");
    reveal_strlit("mpg");
    reveal_strlit("mpeg");
    reveal_strlit("3gp");
    let head = ("webm"@[0], "webm"@[1]);
}

} // verus!
