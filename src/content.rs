//! The kinds of file that carry an icon, told apart by content type, and the
//! thumbnailer's command.

use vstd::prelude::*;

verus! {

/// The file kinds whose icon can be extracted.
#[derive(Debug, Clone, Copy, PartialEq, Eq, Structural)]
pub enum ContentKind {
    /// A cartridge image (.nds).
    NdsRom,
    /// An installable package (.cia).
    N3dsCia,
    /// A bare icon-metadata block (.smdh).
    N3dsSmdh,
    /// A homebrew executable (.3dsx).
    N3ds3dsx,
    /// An embedded-content container (.cxi).
    N3dsCxi,
    /// A disc image (.cci, .3ds).
    N3dsCci,
}

/// A content type that names none of the supported kinds.
#[derive(Debug)]
pub struct InvalidContentType {
    pub content_type: String,
}

/// The kind that the content type `t` names, if any.
pub open spec fn spec_content_kind(t: Seq<char>) -> Option<ContentKind> {
    if t == "application/x-nintendo-ds-rom"@ {
        Some(ContentKind::NdsRom)
    } else if t == "application/x-ctr-cia"@ {
        Some(ContentKind::N3dsCia)
    } else if t == "application/x-ctr-smdh"@ {
        Some(ContentKind::N3dsSmdh)
    } else if t == "application/x-ctr-3dsx"@ || t == "application/x-nintendo-3ds-executable"@ {
        Some(ContentKind::N3ds3dsx)
    } else if t == "application/x-ctr-cxi"@ {
        Some(ContentKind::N3dsCxi)
    } else if t == "application/x-ctr-cci"@ || t == "application/x-nintendo-3ds-rom"@ {
        Some(ContentKind::N3dsCci)
    } else {
        None
    }
}

fn same_text(a: &str, b: &str) -> (r: bool)
    ensures
        r == (a@ == b@),
{
    a.to_owned() == b.to_owned()
}

impl ContentKind {
    /// The kind of a file of content type `content_type`.
    pub fn from_content_type(content_type: &str) -> (r: Result<ContentKind, InvalidContentType>)
        ensures
            match r {
                Ok(kind) => spec_content_kind(content_type@) == Some(kind),
                Err(e) => spec_content_kind(content_type@) is None && e.content_type@
                    == content_type@,
            },
    {
        if same_text(content_type, "application/x-nintendo-ds-rom") {
            Ok(ContentKind::NdsRom)
        } else if same_text(content_type, "application/x-ctr-cia") {
            Ok(ContentKind::N3dsCia)
        } else if same_text(content_type, "application/x-ctr-smdh") {
            Ok(ContentKind::N3dsSmdh)
        } else if same_text(content_type, "application/x-ctr-3dsx") || same_text(
            content_type,
            "application/x-nintendo-3ds-executable",
        ) {
            Ok(ContentKind::N3ds3dsx)
        } else if same_text(content_type, "application/x-ctr-cxi") {
            Ok(ContentKind::N3dsCxi)
        } else if same_text(content_type, "application/x-ctr-cci") || same_text(
            content_type,
            "application/x-nintendo-3ds-rom",
        ) {
            Ok(ContentKind::N3dsCci)
        } else {
            Err(InvalidContentType { content_type: content_type.to_owned() })
        }
    }
}

/// What to do with one input file.
#[derive(Debug)]
pub struct ThumbnailerFileParams {
    /// Extract the icon but save nothing.
    pub is_dry_run: bool,
    /// Side of the square thumbnail; the icon's own size when absent.
    pub size: Option<u32>,
    pub input_file: String,
    pub output_file: Option<String>,
}

impl ThumbnailerFileParams {
    /// Where the thumbnail is to be saved: nowhere in a dry run or without an
    /// output path.
    pub fn output_target(&self) -> (r: Option<&String>)
        ensures
            r == if self.is_dry_run {
                None
            } else {
                match &self.output_file {
                    Some(o) => Some(o),
                    None => None::<&String>,
                }
            },
    {
        if self.is_dry_run {
            return None;
        }
        match &self.output_file {
            Some(o) => Some(o),
            None => None,
        }
    }
}

/// The thumbnailer's command.
#[derive(Debug)]
pub enum ThumbnailerCommand {
    ShowVersion,
    GenerateThumbnail(ThumbnailerFileParams),
}

} // verus!
