//! The fixed vocabularies of the metadata engine: stream kinds, property
//! kinds and the scalar option channel.  The integer codes are the engine's
//! wire contract and are pinned by the `*_code` spec functions; the names
//! are the literals the engine prints in its self-describing catalogue.

use vstd::prelude::*;

use crate::text::str_eq;

verus! {

/// A category of media stream, as the engine numbers them.  `Max` is the
/// sentinel for an unrecognized kind; it is distinct from every real kind.
#[derive(Clone, Copy, Debug, PartialEq, Eq, Hash, Structural)]
pub enum MediaInfoStreamKind {
    General,
    Video,
    Audio,
    Text,
    Other,
    Image,
    Menu,
    Max,
}

/// The catalogue literal naming each stream kind.
pub open spec fn stream_kind_name(kind: MediaInfoStreamKind) -> Seq<char> {
    match kind {
        MediaInfoStreamKind::General => "General"@,
        MediaInfoStreamKind::Video => "Video"@,
        MediaInfoStreamKind::Audio => "Audio"@,
        MediaInfoStreamKind::Text => "Text"@,
        MediaInfoStreamKind::Other => "Other"@,
        MediaInfoStreamKind::Image => "Image"@,
        MediaInfoStreamKind::Menu => "Menu"@,
        MediaInfoStreamKind::Max => "Max"@,
    }
}

/// The integer code the engine uses for each stream kind.  These values are
/// the contract with the native engine and must never change.
pub open spec fn stream_kind_code(kind: MediaInfoStreamKind) -> int {
    match kind {
        MediaInfoStreamKind::General => 0,
        MediaInfoStreamKind::Video => 1,
        MediaInfoStreamKind::Audio => 2,
        MediaInfoStreamKind::Text => 3,
        MediaInfoStreamKind::Other => 4,
        MediaInfoStreamKind::Image => 5,
        MediaInfoStreamKind::Menu => 6,
        MediaInfoStreamKind::Max => 7,
    }
}

/// Which stream kind a catalogue line names; `Max` when it names none.
pub open spec fn parse_stream_kind(text: Seq<char>) -> MediaInfoStreamKind {
    if text == "General"@ {
        MediaInfoStreamKind::General
    } else if text == "Video"@ {
        MediaInfoStreamKind::Video
    } else if text == "Audio"@ {
        MediaInfoStreamKind::Audio
    } else if text == "Text"@ {
        MediaInfoStreamKind::Text
    } else if text == "Other"@ {
        MediaInfoStreamKind::Other
    } else if text == "Image"@ {
        MediaInfoStreamKind::Image
    } else if text == "Menu"@ {
        MediaInfoStreamKind::Menu
    } else {
        MediaInfoStreamKind::Max
    }
}

/// All stream kinds, in engine numbering order.
pub open spec fn stream_kind_values() -> Seq<MediaInfoStreamKind> {
    seq![
        MediaInfoStreamKind::General,
        MediaInfoStreamKind::Video,
        MediaInfoStreamKind::Audio,
        MediaInfoStreamKind::Text,
        MediaInfoStreamKind::Other,
        MediaInfoStreamKind::Image,
        MediaInfoStreamKind::Menu,
        MediaInfoStreamKind::Max,
    ]
}

impl MediaInfoStreamKind {
    pub fn get_name(&self) -> (r: &str)
        ensures
            r@ == stream_kind_name(*self),
    {
        match self {
            MediaInfoStreamKind::General => "General",
            MediaInfoStreamKind::Video => "Video",
            MediaInfoStreamKind::Audio => "Audio",
            MediaInfoStreamKind::Text => "Text",
            MediaInfoStreamKind::Other => "Other",
            MediaInfoStreamKind::Image => "Image",
            MediaInfoStreamKind::Menu => "Menu",
            MediaInfoStreamKind::Max => "Max",
        }
    }

    /// The engine's integer code for this kind.
    pub fn code(&self) -> (r: i32)
        ensures
            r as int == stream_kind_code(*self),
    {
        match self {
            MediaInfoStreamKind::General => 0,
            MediaInfoStreamKind::Video => 1,
            MediaInfoStreamKind::Audio => 2,
            MediaInfoStreamKind::Text => 3,
            MediaInfoStreamKind::Other => 4,
            MediaInfoStreamKind::Image => 5,
            MediaInfoStreamKind::Menu => 6,
            MediaInfoStreamKind::Max => 7,
        }
    }

    pub fn parse(text: &str) -> (r: Self)
        ensures
            r == parse_stream_kind(text@),
    {
        if str_eq(text, "General") {
            MediaInfoStreamKind::General
        } else if str_eq(text, "Video") {
            MediaInfoStreamKind::Video
        } else if str_eq(text, "Audio") {
            MediaInfoStreamKind::Audio
        } else if str_eq(text, "Text") {
            MediaInfoStreamKind::Text
        } else if str_eq(text, "Other") {
            MediaInfoStreamKind::Other
        } else if str_eq(text, "Image") {
            MediaInfoStreamKind::Image
        } else if str_eq(text, "Menu") {
            MediaInfoStreamKind::Menu
        } else {
            MediaInfoStreamKind::Max
        }
    }

    pub fn values() -> (r: Vec<MediaInfoStreamKind>)
        ensures
            r@ == stream_kind_values(),
    {
        let mut v: Vec<MediaInfoStreamKind> = Vec::new();
        v.push(MediaInfoStreamKind::General);
        v.push(MediaInfoStreamKind::Video);
        v.push(MediaInfoStreamKind::Audio);
        v.push(MediaInfoStreamKind::Text);
        v.push(MediaInfoStreamKind::Other);
        v.push(MediaInfoStreamKind::Image);
        v.push(MediaInfoStreamKind::Menu);
        v.push(MediaInfoStreamKind::Max);
        proof {
            assert(v@ =~= stream_kind_values());
        }
        v
    }
}

/// How a property value is fetched or interpreted by the engine.  A lookup
/// pairs a "what to return" kind with a "what to search by" kind.
#[derive(Clone, Copy, Debug, PartialEq, Eq, Structural)]
pub enum MediaInfoPropertyKind {
    Name,
    Text,
    Measure,
    Options,
    NameText,
    MeasureText,
    Info,
    HowTo,
    Max,
}

pub open spec fn property_kind_name(kind: MediaInfoPropertyKind) -> Seq<char> {
    match kind {
        MediaInfoPropertyKind::Name => "Name"@,
        MediaInfoPropertyKind::Text => "Text"@,
        MediaInfoPropertyKind::Measure => "Measure"@,
        MediaInfoPropertyKind::Options => "Options"@,
        MediaInfoPropertyKind::NameText => "NameText"@,
        MediaInfoPropertyKind::MeasureText => "MeasureText"@,
        MediaInfoPropertyKind::Info => "Info"@,
        MediaInfoPropertyKind::HowTo => "HowTo"@,
        MediaInfoPropertyKind::Max => "Max"@,
    }
}

/// The integer code the engine uses for each property kind.
pub open spec fn property_kind_code(kind: MediaInfoPropertyKind) -> int {
    match kind {
        MediaInfoPropertyKind::Name => 0,
        MediaInfoPropertyKind::Text => 1,
        MediaInfoPropertyKind::Measure => 2,
        MediaInfoPropertyKind::Options => 3,
        MediaInfoPropertyKind::NameText => 4,
        MediaInfoPropertyKind::MeasureText => 5,
        MediaInfoPropertyKind::Info => 6,
        MediaInfoPropertyKind::HowTo => 7,
        MediaInfoPropertyKind::Max => 8,
    }
}

pub open spec fn property_kind_values() -> Seq<MediaInfoPropertyKind> {
    seq![
        MediaInfoPropertyKind::Name,
        MediaInfoPropertyKind::Text,
        MediaInfoPropertyKind::Measure,
        MediaInfoPropertyKind::Options,
        MediaInfoPropertyKind::NameText,
        MediaInfoPropertyKind::MeasureText,
        MediaInfoPropertyKind::Info,
        MediaInfoPropertyKind::HowTo,
        MediaInfoPropertyKind::Max,
    ]
}

impl MediaInfoPropertyKind {
    pub fn get_name(&self) -> (r: &str)
        ensures
            r@ == property_kind_name(*self),
    {
        match self {
            MediaInfoPropertyKind::Name => "Name",
            MediaInfoPropertyKind::Text => "Text",
            MediaInfoPropertyKind::Measure => "Measure",
            MediaInfoPropertyKind::Options => "Options",
            MediaInfoPropertyKind::NameText => "NameText",
            MediaInfoPropertyKind::MeasureText => "MeasureText",
            MediaInfoPropertyKind::Info => "Info",
            MediaInfoPropertyKind::HowTo => "HowTo",
            MediaInfoPropertyKind::Max => "Max",
        }
    }

    /// The engine's integer code for this property kind.
    pub fn code(&self) -> (r: i32)
        ensures
            r as int == property_kind_code(*self),
    {
        match self {
            MediaInfoPropertyKind::Name => 0,
            MediaInfoPropertyKind::Text => 1,
            MediaInfoPropertyKind::Measure => 2,
            MediaInfoPropertyKind::Options => 3,
            MediaInfoPropertyKind::NameText => 4,
            MediaInfoPropertyKind::MeasureText => 5,
            MediaInfoPropertyKind::Info => 6,
            MediaInfoPropertyKind::HowTo => 7,
            MediaInfoPropertyKind::Max => 8,
        }
    }

    pub fn values() -> (r: Vec<MediaInfoPropertyKind>)
        ensures
            r@ == property_kind_values(),
    {
        let mut v: Vec<MediaInfoPropertyKind> = Vec::new();
        v.push(MediaInfoPropertyKind::Name);
        v.push(MediaInfoPropertyKind::Text);
        v.push(MediaInfoPropertyKind::Measure);
        v.push(MediaInfoPropertyKind::Options);
        v.push(MediaInfoPropertyKind::NameText);
        v.push(MediaInfoPropertyKind::MeasureText);
        v.push(MediaInfoPropertyKind::Info);
        v.push(MediaInfoPropertyKind::HowTo);
        v.push(MediaInfoPropertyKind::Max);
        proof {
            assert(v@ =~= property_kind_values());
        }
        v
    }
}

/// Scalar options read from the engine's option channel.
#[derive(Clone, Copy, Debug, PartialEq, Eq, Structural)]
pub enum MediaInfoGetOption {
    CompleteGet,
    InfoCodecs,
    InfoParameters,
    InfoVersion,
}

pub open spec fn get_option_name(option: MediaInfoGetOption) -> Seq<char> {
    match option {
        MediaInfoGetOption::CompleteGet => "Complete_Get"@,
        MediaInfoGetOption::InfoCodecs => "Info_Codecs"@,
        MediaInfoGetOption::InfoParameters => "Info_Parameters"@,
        MediaInfoGetOption::InfoVersion => "Info_Version"@,
    }
}

impl MediaInfoGetOption {
    pub fn as_str(&self) -> (r: &str)
        ensures
            r@ == get_option_name(*self),
    {
        match self {
            MediaInfoGetOption::CompleteGet => "Complete_Get",
            MediaInfoGetOption::InfoCodecs => "Info_Codecs",
            MediaInfoGetOption::InfoParameters => "Info_Parameters",
            MediaInfoGetOption::InfoVersion => "Info_Version",
        }
    }
}

/// Scalar options written to the engine's option channel before opening a
/// file (character set and locale must be set before `open`).
#[derive(Clone, Copy, Debug, PartialEq, Eq, Structural)]
pub enum MediaInfoSetOption {
    CharSet,
    Complete,
    Locale,
}

pub open spec fn set_option_name(option: MediaInfoSetOption) -> Seq<char> {
    match option {
        MediaInfoSetOption::CharSet => "CharSet"@,
        MediaInfoSetOption::Complete => "Complete"@,
        MediaInfoSetOption::Locale => "setlocale_LC_CTYPE"@,
    }
}

impl MediaInfoSetOption {
    pub fn as_str(&self) -> (r: &str)
        ensures
            r@ == set_option_name(*self),
    {
        match self {
            MediaInfoSetOption::CharSet => "CharSet",
            MediaInfoSetOption::Complete => "Complete",
            MediaInfoSetOption::Locale => "setlocale_LC_CTYPE",
        }
    }
}

/// The curated general-stream parameters that ship as the default
/// configuration.
#[derive(Clone, Copy, Debug, PartialEq, Eq, Structural)]
pub enum GeneralStream {
    CompleteName,
    Duration,
    EncodedApplication,
    EncodedDate,
    EncodedLibrary,
    FileSize,
    Format,
    FrameRate,
    Movie,
    OverallBitRate,
    Title,
    UniqueID,
}

pub open spec fn general_stream_name(stream: GeneralStream) -> Seq<char> {
    match stream {
        GeneralStream::CompleteName => "CompleteName"@,
        GeneralStream::Duration => "Duration"@,
        GeneralStream::EncodedApplication => "Encoded_Application"@,
        GeneralStream::EncodedDate => "Encoded_Date"@,
        GeneralStream::EncodedLibrary => "Encoded_Library"@,
        GeneralStream::FileSize => "FileSize"@,
        GeneralStream::Format => "Format"@,
        GeneralStream::FrameRate => "FrameRate"@,
        GeneralStream::Movie => "Movie"@,
        GeneralStream::OverallBitRate => "OverallBitRate"@,
        GeneralStream::Title => "Title"@,
        GeneralStream::UniqueID => "UniqueID"@,
    }
}

pub open spec fn general_stream_values() -> Seq<GeneralStream> {
    seq![
        GeneralStream::CompleteName,
        GeneralStream::Duration,
        GeneralStream::EncodedApplication,
        GeneralStream::EncodedDate,
        GeneralStream::EncodedLibrary,
        GeneralStream::FileSize,
        GeneralStream::Format,
        GeneralStream::FrameRate,
        GeneralStream::Movie,
        GeneralStream::OverallBitRate,
        GeneralStream::Title,
        GeneralStream::UniqueID,
    ]
}

impl GeneralStream {
    /// The engine parameter name this curated entry stands for.
    pub fn get_name(&self) -> (r: &str)
        ensures
            r@ == general_stream_name(*self),
    {
        match self {
            GeneralStream::CompleteName => "CompleteName",
            GeneralStream::Duration => "Duration",
            GeneralStream::EncodedApplication => "Encoded_Application",
            GeneralStream::EncodedDate => "Encoded_Date",
            GeneralStream::EncodedLibrary => "Encoded_Library",
            GeneralStream::FileSize => "FileSize",
            GeneralStream::Format => "Format",
            GeneralStream::FrameRate => "FrameRate",
            GeneralStream::Movie => "Movie",
            GeneralStream::OverallBitRate => "OverallBitRate",
            GeneralStream::Title => "Title",
            GeneralStream::UniqueID => "UniqueID",
        }
    }

    pub fn values() -> (r: Vec<GeneralStream>)
        ensures
            r@ == general_stream_values(),
    {
        let mut v: Vec<GeneralStream> = Vec::new();
        v.push(GeneralStream::CompleteName);
        v.push(GeneralStream::Duration);
        v.push(GeneralStream::EncodedApplication);
        v.push(GeneralStream::EncodedDate);
        v.push(GeneralStream::EncodedLibrary);
        v.push(GeneralStream::FileSize);
        v.push(GeneralStream::Format);
        v.push(GeneralStream::FrameRate);
        v.push(GeneralStream::Movie);
        v.push(GeneralStream::OverallBitRate);
        v.push(GeneralStream::Title);
        v.push(GeneralStream::UniqueID);
        proof {
            assert(v@ =~= general_stream_values());
        }
        v
    }
}

} // verus!
