//! The typed artifact produced for one clipboard snapshot.
//!
//! Exactly one variant represents a snapshot: a `Body` never mixes content
//! kinds. Bodies are created by the extraction policy, immutable afterwards,
//! and shared (reference-counted) across every subscriber queue.

use vstd::prelude::*;

verus! {

/// An image from the clipboard, normalized to raw rgb8 bytes.
#[derive(Debug, Clone, PartialEq, Eq, Hash)]
pub struct RawImage {
    /// The rgb8 bytes of the image, row-major.
    pub bytes: Vec<u8>,
    /// The width of the image.
    pub width: u32,
    /// The height of the image.
    pub height: u32,
    /// The path to the image's file (if one can be detected).
    pub path: Option<String>,
}

/// Mathematical model of a [`RawImage`].
pub struct RawImageModel {
    pub bytes: Seq<u8>,
    pub width: u32,
    pub height: u32,
    pub path: Option<Seq<char>>,
}

/// Deep view of an optional path.
pub open spec fn opt_str_view(o: Option<String>) -> Option<Seq<char>> {
    match o {
        Some(s) => Some(s@),
        None => None,
    }
}

impl View for RawImage {
    type V = RawImageModel;

    open spec fn view(&self) -> RawImageModel {
        RawImageModel {
            bytes: self.bytes@,
            width: self.width,
            height: self.height,
            path: opt_str_view(self.path),
        }
    }
}

impl RawImage {
    /// Whether the clipboard had a file path attached to this image.
    pub fn has_path(&self) -> (r: bool)
        ensures
            r == self@.path.is_some(),
    {
        self.path.is_some()
    }
}

/// The content extracted from one clipboard change.
///
/// To avoid extracting every representation each time, exactly one is
/// chosen, in the following order of priority:
///
/// - Custom formats (in the order they are given, if present)
/// - PNG-encoded image
/// - Raw image, normalized to rgb8
/// - File list
/// - HTML
/// - Plain text
///
/// When a clipboard item fits more than one of these formats, only the one
/// with the highest priority is chosen. When a selected image coincides with
/// a file list holding exactly one entry, that single path is attached to
/// the image.
#[derive(Debug, Clone, PartialEq, Eq, Hash)]
pub enum Body {
    Html(String),
    PlainText(String),
    RawImage(RawImage),
    PngImage { bytes: Vec<u8>, path: Option<String> },
    FileList(Vec<String>),
    Custom { name: String, data: Vec<u8> },
}

/// Mathematical model of a [`Body`].
pub enum BodyModel {
    Html(Seq<char>),
    PlainText(Seq<char>),
    RawImage(RawImageModel),
    PngImage { bytes: Seq<u8>, path: Option<Seq<char>> },
    FileList(Seq<Seq<char>>),
    Custom { name: Seq<char>, data: Seq<u8> },
}

/// Deep view of a list of paths.
pub open spec fn paths_view(v: Seq<String>) -> Seq<Seq<char>> {
    v.map_values(|s: String| s@)
}

impl View for Body {
    type V = BodyModel;

    open spec fn view(&self) -> BodyModel {
        match self {
            Body::Html(s) => BodyModel::Html(s@),
            Body::PlainText(s) => BodyModel::PlainText(s@),
            Body::RawImage(img) => BodyModel::RawImage(img@),
            Body::PngImage { bytes, path } => BodyModel::PngImage {
                bytes: bytes@,
                path: opt_str_view(*path),
            },
            Body::FileList(files) => BodyModel::FileList(paths_view(files@)),
            Body::Custom { name, data } => BodyModel::Custom { name: name@, data: data@ },
        }
    }
}

impl Body {
    /// Wraps PNG-encoded bytes, with the path of the copied file when the
    /// snapshot also carried a single-entry file list.
    pub fn new_png(bytes: Vec<u8>, path: Option<String>) -> (r: Body)
        ensures
            r@ == (BodyModel::PngImage { bytes: bytes@, path: opt_str_view(path) }),
    {
        Body::PngImage { bytes, path }
    }

    /// Wraps a raw image already normalized to rgb8 bytes.
    pub fn new_image(bytes: Vec<u8>, width: u32, height: u32, path: Option<String>) -> (r: Body)
        ensures
            r@ == BodyModel::RawImage(
                RawImageModel { bytes: bytes@, width, height, path: opt_str_view(path) },
            ),
    {
        Body::RawImage(RawImage { bytes, width, height, path })
    }

    /// Wraps the payload of a monitored custom format.
    pub fn new_custom(name: String, data: Vec<u8>) -> (r: Body)
        ensures
            r@ == (BodyModel::Custom { name: name@, data: data@ }),
    {
        Body::Custom { name, data }
    }

    /// Wraps a list of copied file paths.
    pub fn new_file_list(files: Vec<String>) -> (r: Body)
        ensures
            r@ == BodyModel::FileList(paths_view(files@)),
    {
        Body::FileList(files)
    }

    /// Wraps HTML text.
    pub fn new_html(html: String) -> (r: Body)
        ensures
            r@ == BodyModel::Html(html@),
    {
        Body::Html(html)
    }

    /// Wraps plain text.
    pub fn new_text(text: String) -> (r: Body)
        ensures
            r@ == BodyModel::PlainText(text@),
    {
        Body::PlainText(text)
    }
}

} // verus!
