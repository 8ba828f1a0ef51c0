//! Attachment references: where a file lives, what it is called and what
//! kind of media its extension promises; and the base64 text form of bytes.

use base64::prelude::{Engine, BASE64_STANDARD};
use std::path::Path;
use vstd::prelude::*;

verus! {

/// The RFC 4648 text (standard alphabet, padded) that the `base64` crate's
/// standard engine produces for `data`.
pub uninterp spec fn base64_text(data: Seq<u8>) -> Seq<char>;

/// The bytes that the `base64` crate's standard engine decodes `text` to, or
/// `None` where it rejects `text`.
pub uninterp spec fn base64_payload(text: Seq<char>) -> Option<Seq<u8>>;

/// The final component of `path` as `Path::file_name` yields it, or `None`
/// where the path has none.
pub uninterp spec fn path_file_name(path: Seq<char>) -> Option<Seq<char>>;

/// The place of the last dot in `name`, or -1 where it has none.
pub open spec fn last_dot(name: Seq<char>) -> int
    decreases name.len(),
{
    if name.len() == 0 {
        -1
    } else if name.last() == '.' {
        name.len() - 1
    } else {
        last_dot(name.drop_last())
    }
}

/// The extension of a file name: what follows the last dot, unless the
/// name has no dot or its only dot leads.
pub open spec fn extension_in(name: Option<Seq<char>>) -> Option<Seq<char>> {
    match name {
        Some(n) => if last_dot(n) <= 0 {
            None
        } else {
            Some(n.skip(last_dot(n) + 1))
        },
        None => None,
    }
}

/// The stem of a file name: what precedes the last dot, or the whole name
/// where it has no dot or its only dot leads.
pub open spec fn stem_in(name: Option<Seq<char>>) -> Option<Seq<char>> {
    match name {
        Some(n) => if last_dot(n) <= 0 {
            Some(n)
        } else {
            Some(n.take(last_dot(n)))
        },
        None => None,
    }
}

/// The Unicode lowercase form of `text`, as `str::to_lowercase` computes it.
pub uninterp spec fn lowercase_of(text: Seq<char>) -> Seq<char>;

/// Calls `Engine::encode` on `BASE64_STANDARD`. Trusted: the text is the
/// one named `base64_text`, and the same engine decodes it back to `data`.
#[verifier::external_body]
pub(crate) fn standard_encode(data: &Vec<u8>) -> (text: String)
    ensures
        text@ == base64_text(data@),
        base64_payload(text@) == Some(data@),
{
    BASE64_STANDARD.encode(data)
}

/// Calls `Engine::decode` on `BASE64_STANDARD`. Trusted: the outcome is the
/// one named `base64_payload`; a rejected input gives `None`.
#[verifier::external_body]
fn standard_decode(text: &str) -> (bytes: Option<Vec<u8>>)
    ensures
        match bytes {
            Some(b) => base64_payload(text@) == Some(b@),
            None => base64_payload(text@) is None,
        },
{
    BASE64_STANDARD.decode(text).ok()
}

/// Calls `Path::extension`. Trusted: the outcome is the extension of the
/// file name, as the documentation of the method defines it.
#[verifier::external_body]
fn extension_text(path: &str) -> (ext: Option<String>)
    ensures
        match ext {
            Some(e) => extension_in(path_file_name(path@)) == Some(e@),
            None => extension_in(path_file_name(path@)) is None,
        },
{
    Path::new(path).extension().and_then(|e| e.to_str()).map(|e| e.to_string())
}

/// Calls `Path::file_stem`. Trusted: the outcome is the stem of the file
/// name, as the documentation of the method defines it.
#[verifier::external_body]
fn file_stem_text(path: &str) -> (stem: Option<String>)
    ensures
        match stem {
            Some(s) => stem_in(path_file_name(path@)) == Some(s@),
            None => stem_in(path_file_name(path@)) is None,
        },
{
    Path::new(path).file_stem().and_then(|s| s.to_str()).map(|s| s.to_string())
}

/// Calls `str::to_lowercase`. Trusted: the result is the one named
/// `lowercase_of`.
#[verifier::external_body]
pub(crate) fn lowercase(text: &str) -> (lower: String)
    ensures
        lower@ == lowercase_of(text@),
{
    text.to_lowercase()
}

/// Whether `text` begins with `prefix`.
fn has_prefix(text: &str, prefix: &str) -> (found: bool)
    ensures
        found == prefix@.is_prefix_of(text@),
{
    let n = prefix.unicode_len();
    if text.unicode_len() < n {
        return false;
    }
    let mut i: usize = 0;
    while i < n
        invariant
            i <= n,
            n == prefix@.len(),
            n <= text@.len(),
            forall|j: int| 0 <= j < i ==> text@[j] == prefix@[j],
        decreases n - i,
    {
        if text.get_char(i) != prefix.get_char(i) {
            assert(text@.subrange(0, n as int)[i as int] != prefix@[i as int]);
            return false;
        }
        i += 1;
    }
    assert(prefix@ =~= text@.subrange(0, n as int));
    true
}

/// Whether both hold the same characters.
pub(crate) fn same_text(left: &str, right: &str) -> (same: bool)
    ensures
        same == (left@ == right@),
{
    let left = left.to_string();
    let right = right.to_string();
    left == right
}

/// Base64 text, produced by `encode` or taken as received.
#[derive(Debug, Clone, PartialEq, Eq)]
pub struct Base64Encoding(String);

impl View for Base64Encoding {
    type V = Seq<char>;

    closed spec fn view(&self) -> Seq<char> {
        self.0@
    }
}

impl Base64Encoding {
    /// Wraps text that is taken to be base64 already; nothing is checked.
    pub fn new(input: String) -> (encoding: Self)
        ensures
            encoding@ == input@,
    {
        Self(input)
    }

    /// Encodes `data`. Decoding the result gives `data` back.
    pub fn encode(data: Vec<u8>) -> (encoding: Self)
        ensures
            encoding@ == base64_text(data@),
            base64_payload(encoding@) == Some(data@),
    {
        Self(standard_encode(&data))
    }

    /// Decodes the text, or returns `None` where it is not valid base64.
    pub fn decode(self) -> (bytes: Option<Vec<u8>>)
        ensures
            match bytes {
                Some(b) => base64_payload(self@) == Some(b@),
                None => base64_payload(self@) is None,
            },
    {
        standard_decode(self.0.as_str())
    }

    /// Gives the text up.
    pub fn unwrap(self) -> (text: String)
        ensures
            text@ == self@,
    {
        self.0
    }
}

/// The extension of `path`, empty where it has none.
pub open spec fn extension_of(path: Seq<char>) -> Seq<char> {
    match extension_in(path_file_name(path)) {
        Some(e) => e,
        None => Seq::empty(),
    }
}

/// The file stem of `path`, empty where it has none.
pub open spec fn stem_of(path: Seq<char>) -> Seq<char> {
    match stem_in(path_file_name(path)) {
        Some(s) => s,
        None => Seq::empty(),
    }
}

/// Gets the file extension of `filename`, without the dot; empty where
/// there is none. The name is taken as written: nothing is expanded.
pub fn get_extension_from_filename(filename: &str) -> (ext: String)
    ensures
        ext@ == extension_of(filename@),
{
    match extension_text(filename) {
        Some(e) => e,
        None => String::new(),
    }
}

/// Gets the file extension of `filename` in lower case; empty where there
/// is none.
pub fn get_lowercase_extension(filename: &str) -> (ext: String)
    ensures
        ext@ == lowercase_of(extension_of(filename@)),
{
    lowercase(get_extension_from_filename(filename).as_str())
}

/// Gets the file stem of `filename`; empty where there is none. The name
/// is taken as written: nothing is expanded.
pub fn get_file_stem(filename: &str) -> (stem: String)
    ensures
        stem@ == stem_of(filename@),
{
    match file_stem_text(filename) {
        Some(s) => s,
        None => String::new(),
    }
}

/// Where the referenced bytes live.
#[derive(Debug, Clone, Copy, PartialEq, Eq, Structural)]
pub enum Location {
    Local,
    S3,
}

/// The coarse media kind that an extension stands for.
#[derive(Debug, Clone, Copy, PartialEq, Eq, Structural)]
pub enum Type {
    Image,
    Video,
    Document,
    /// The extension is in none of the tables.
    Unsupported,
}

#[derive(Debug, Clone, PartialEq, Eq)]
pub struct FileStem(pub String);

#[derive(Debug, Clone, PartialEq, Eq)]
pub struct FileExtension(pub String);

/// A classified attachment reference.
#[derive(Debug, Clone, PartialEq, Eq)]
pub struct FileReference {
    pub file_type: Type,
    pub location: Location,
    pub path: String,
    pub stem: FileStem,
    pub extension: FileExtension,
}

/// A classified reference together with the bytes of the file, where the
/// caller has read them. `None` stands for bytes that were not read or
/// could not be read.
#[derive(Debug, Clone, PartialEq, Eq)]
pub struct Attachment {
    pub reference: FileReference,
    pub contents: Option<Vec<u8>>,
}

/// The reference could not be classified: its extension is in no table.
#[derive(Debug, Clone, PartialEq, Eq)]
pub struct UnsupportedKind(pub String);

/// Why an attachment could not be turned into a content block. Each
/// variant carries the path as the caller wrote it.
#[derive(Debug, Clone, PartialEq, Eq)]
pub enum EncodeError {
    /// The extension is in no table.
    UnsupportedKind(String),
    /// The file is local and its bytes could not be had.
    ReadFailure(String),
    /// The kind cannot be sent from this location, or not in this schema.
    UnsupportedCombination(String),
}

impl EncodeError {
    /// The path that the error carries.
    pub open spec fn path(&self) -> Seq<char> {
        match self {
            EncodeError::UnsupportedKind(p) => p@,
            EncodeError::ReadFailure(p) => p@,
            EncodeError::UnsupportedCombination(p) => p@,
        }
    }

    /// Gives the path up.
    pub fn into_path(self) -> (path: String)
        ensures
            path@ == self.path(),
    {
        match self {
            EncodeError::UnsupportedKind(p) => p,
            EncodeError::ReadFailure(p) => p,
            EncodeError::UnsupportedCombination(p) => p,
        }
    }
}

/// The extensions of images, in lower case.
pub open spec fn is_image_extension(ext: Seq<char>) -> bool {
    ext == "png"@ || ext == "jpg"@ || ext == "jpeg"@ || ext == "gif"@ || ext == "webp"@
}

/// The extensions of videos, in lower case: those for which the
/// conversation schema has a format. `m4v` and `avi` are not among them.
pub open spec fn is_video_extension(ext: Seq<char>) -> bool {
    ext == "mp4"@ || ext == "mov"@ || ext == "mkv"@ || ext == "webm"@ || ext == "flv"@
        || ext == "mpeg"@ || ext == "mpg"@ || ext == "wmv"@ || ext == "3gp"@
}

/// The extensions of documents, in lower case.
pub open spec fn is_document_extension(ext: Seq<char>) -> bool {
    ext == "csv"@ || ext == "doc"@ || ext == "docx"@ || ext == "html"@ || ext == "md"@
        || ext == "pdf"@ || ext == "txt"@ || ext == "xls"@ || ext == "xlsx"@
}

/// The kind that a lowercased extension stands for.
pub open spec fn kind_of(ext: Seq<char>) -> Type {
    if is_image_extension(ext) {
        Type::Image
    } else if is_video_extension(ext) {
        Type::Video
    } else if is_document_extension(ext) {
        Type::Document
    } else {
        Type::Unsupported
    }
}

/// The location that the scheme of `path` stands for.
pub open spec fn location_of(path: Seq<char>) -> Location {
    if "s3://"@.is_prefix_of(path) {
        Location::S3
    } else {
        Location::Local
    }
}

impl Type {
    /// Looks a lowercased extension up in the three tables.
    pub fn of_extension(ext: &str) -> (kind: Type)
        ensures
            kind == kind_of(ext@),
    {
        if same_text(ext, "png") || same_text(ext, "jpg") || same_text(ext, "jpeg")
            || same_text(ext, "gif") || same_text(ext, "webp") {
            Type::Image
        } else if same_text(ext, "mp4") || same_text(ext, "mov") || same_text(ext, "mkv")
            || same_text(ext, "webm") || same_text(ext, "flv") || same_text(ext, "mpeg")
            || same_text(ext, "mpg") || same_text(ext, "wmv") || same_text(ext, "3gp") {
            Type::Video
        } else if same_text(ext, "csv") || same_text(ext, "doc") || same_text(ext, "docx")
            || same_text(ext, "html") || same_text(ext, "md") || same_text(ext, "pdf")
            || same_text(ext, "txt") || same_text(ext, "xls") || same_text(ext, "xlsx") {
            Type::Document
        } else {
            Type::Unsupported
        }
    }
}

impl FileReference {
    /// Whether this is the classification of `path`: the location by the
    /// scheme; the stem as written and the extension in lower case, both
    /// by the last path segment; the kind by the extension alone.
    pub open spec fn describes(&self, path: Seq<char>) -> bool {
        &&& self.path@ == path
        &&& self.location == location_of(path)
        &&& self.extension.0@ == lowercase_of(extension_of(path))
        &&& self.stem.0@ == stem_of(path)
        &&& self.file_type == kind_of(self.extension.0@)
    }

    /// Classifies `value`. No file is touched.
    pub fn from(value: String) -> (reference: FileReference)
        ensures
            reference.describes(value@),
    {
        let location = if has_prefix(value.as_str(), "s3://") {
            Location::S3
        } else {
            Location::Local
        };
        let stem = FileStem(get_file_stem(value.as_str()));
        let extension = FileExtension(get_lowercase_extension(value.as_str()));
        let file_type = Type::of_extension(extension.0.as_str());
        FileReference { file_type, location, path: value, stem, extension }
    }

    /// Classifies `value` and refuses it where the kind is unsupported;
    /// the error carries `value` as written.
    pub fn classify(value: String) -> (outcome: Result<FileReference, UnsupportedKind>)
        ensures
            match outcome {
                Ok(reference) => reference.describes(value@)
                    && reference.file_type != Type::Unsupported,
                Err(e) => e.0@ == value@
                    && kind_of(lowercase_of(extension_of(value@))) == Type::Unsupported,
            },
    {
        let reference = FileReference::from(value);
        match reference.file_type {
            Type::Unsupported => Err(UnsupportedKind(reference.path)),
            _ => Ok(reference),
        }
    }

    /// Whether the bytes of the file must be read before it can be sent:
    /// true of every supported kind held locally.
    pub fn needs_contents(&self) -> (needed: bool)
        ensures
            needed == (self.location == Location::Local && self.file_type != Type::Unsupported),
    {
        match (self.location, self.file_type) {
            (Location::S3, _) => false,
            (Location::Local, Type::Unsupported) => false,
            (Location::Local, _) => true,
        }
    }
}

/// The three tables share no extension: an extension of one of them has
/// the kind of that table and no other, and an extension of none of them
/// is unsupported.
pub proof fn lemma_kind_follows_tables(ext: Seq<char>)
    ensures
        is_image_extension(ext) <==> kind_of(ext) == Type::Image,
        is_video_extension(ext) <==> kind_of(ext) == Type::Video,
        is_document_extension(ext) <==> kind_of(ext) == Type::Document,
        !is_image_extension(ext) && !is_video_extension(ext) && !is_document_extension(ext)
            <==> kind_of(ext) == Type::Unsupported,
{
    reveal_strlit("png");
    reveal_strlit("jpg");
    reveal_strlit("jpeg");
    reveal_strlit("gif");
    reveal_strlit("webp");
    reveal_strlit("mp4");
    reveal_strlit("mov");
    reveal_strlit("mkv");
    reveal_strlit("webm");
    reveal_strlit("flv");
    reveal_strlit("mpeg");
    reveal_strlit("mpg");
    reveal_strlit("wmv");
    reveal_strlit("3gp");
    reveal_strlit("csv");
    reveal_strlit("doc");
    reveal_strlit("docx");
    reveal_strlit("html");
    reveal_strlit("md");
    reveal_strlit("pdf");
    reveal_strlit("txt");
    reveal_strlit("xls");
    reveal_strlit("xlsx");
    if is_image_extension(ext) || is_video_extension(ext) || is_document_extension(ext) {
        // The tables differ within the first four characters.
        assert(ext.len() >= 2);
        let head = (ext[0], ext[1]);
        if ext.len() >= 4 {
            let tail = (ext[2], ext[3]);
        }
    }
}

/// The kind depends on the extension alone, and not on its case: two
/// references whose extensions have the same lowercase form are of the
/// same kind.
pub proof fn lemma_kind_ignores_case(
    first: FileReference,
    first_path: Seq<char>,
    second: FileReference,
    second_path: Seq<char>,
)
    requires
        first.describes(first_path),
        second.describes(second_path),
        lowercase_of(extension_of(first_path)) == lowercase_of(extension_of(second_path)),
    ensures
        first.file_type == second.file_type,
{
}

} // verus!
