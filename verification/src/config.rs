//! User configuration: which file extensions are active per media
//! category, which directory mode is selected, and which general-stream
//! parameters are built-in.  Loading and saving the configuration is the
//! surrounding application's concern; this module holds the data and the
//! documented out-of-box defaults, and derives the active extension
//! filter.

use vstd::prelude::*;
use vstd::string::StringExecFns;

use crate::text::{clone_strings, seq_views};

verus! {

/// Which media category's extensions filter directory listings.  `All`
/// selects no extension filter at all.
#[derive(Clone, Copy, Debug, PartialEq, Eq, Structural)]
pub enum ConfigDirectoryMode {
    All,
    Audio,
    Image,
    Video,
}

impl Default for ConfigDirectoryMode {
    fn default() -> (r: Self)
        ensures
            r == ConfigDirectoryMode::All,
    {
        ConfigDirectoryMode::All
    }
}

/// The active file extensions of each media category.
#[derive(Debug)]
pub struct ConfigFileExtensions {
    pub audio: Vec<String>,
    pub image: Vec<String>,
    pub video: Vec<String>,
}

/// The audio extensions that ship as the out-of-box configuration.
pub open spec fn default_audio_extensions() -> Seq<Seq<char>> {
    seq!["mp3"@, "aac"@, "flac"@, "wav"@, "ogg"@, "m4a"@, "mka"@, "ape"@, "ac3"@, "dts"@]
}

/// The image extensions that ship as the out-of-box configuration.
pub open spec fn default_image_extensions() -> Seq<Seq<char>> {
    seq!["jpg"@, "jpeg"@, "png"@, "gif"@, "bmp"@, "tif"@]
}

/// The video extensions that ship as the out-of-box configuration.
pub open spec fn default_video_extensions() -> Seq<Seq<char>> {
    seq!["mkv"@, "mp4"@, "m2ts"@, "ts"@, "avi"@, "mov"@, "wmv"@, "flv"@, "webm"@]
}

impl Default for ConfigFileExtensions {
    fn default() -> (r: Self)
        ensures
            seq_views(r.audio@) == default_audio_extensions(),
            seq_views(r.image@) == default_image_extensions(),
            seq_views(r.video@) == default_video_extensions(),
    {
        let mut audio: Vec<String> = Vec::new();
        audio.push(String::from_str("mp3"));
        audio.push(String::from_str("aac"));
        audio.push(String::from_str("flac"));
        audio.push(String::from_str("wav"));
        audio.push(String::from_str("ogg"));
        audio.push(String::from_str("m4a"));
        audio.push(String::from_str("mka"));
        audio.push(String::from_str("ape"));
        audio.push(String::from_str("ac3"));
        audio.push(String::from_str("dts"));
        let mut image: Vec<String> = Vec::new();
        image.push(String::from_str("jpg"));
        image.push(String::from_str("jpeg"));
        image.push(String::from_str("png"));
        image.push(String::from_str("gif"));
        image.push(String::from_str("bmp"));
        image.push(String::from_str("tif"));
        let mut video: Vec<String> = Vec::new();
        video.push(String::from_str("mkv"));
        video.push(String::from_str("mp4"));
        video.push(String::from_str("m2ts"));
        video.push(String::from_str("ts"));
        video.push(String::from_str("avi"));
        video.push(String::from_str("mov"));
        video.push(String::from_str("wmv"));
        video.push(String::from_str("flv"));
        video.push(String::from_str("webm"));
        proof {
            assert(seq_views(audio@) =~= default_audio_extensions());
            assert(seq_views(image@) =~= default_image_extensions());
            assert(seq_views(video@) =~= default_video_extensions());
        }
        ConfigFileExtensions { audio, image, video }
    }
}

/// The built-in parameter selection: the configured general-stream
/// parameter names.
#[derive(Debug)]
pub struct ConfigStreams {
    pub general: Vec<String>,
}

/// The general-stream parameters that are built-in out of the box.
pub open spec fn default_general_streams() -> Seq<Seq<char>> {
    seq![
        "CompleteName"@,
        "Duration"@,
        "Encoded_Application"@,
        "Encoded_Date"@,
        "Encoded_Library"@,
        "FileSize"@,
        "Format"@,
        "FrameRate"@,
        "Movie"@,
        "OverallBitRate"@,
        "Title"@,
        "UniqueID"@,
    ]
}

impl Default for ConfigStreams {
    fn default() -> (r: Self)
        ensures
            seq_views(r.general@) == default_general_streams(),
    {
        let mut general: Vec<String> = Vec::new();
        general.push(String::from_str("CompleteName"));
        general.push(String::from_str("Duration"));
        general.push(String::from_str("Encoded_Application"));
        general.push(String::from_str("Encoded_Date"));
        general.push(String::from_str("Encoded_Library"));
        general.push(String::from_str("FileSize"));
        general.push(String::from_str("Format"));
        general.push(String::from_str("FrameRate"));
        general.push(String::from_str("Movie"));
        general.push(String::from_str("OverallBitRate"));
        general.push(String::from_str("Title"));
        general.push(String::from_str("UniqueID"));
        proof {
            assert(seq_views(general@) =~= default_general_streams());
        }
        ConfigStreams { general }
    }
}

/// The persisted settings: drop behaviour, directory mode, the per-category
/// extension lists and the built-in parameter selection.
#[derive(Debug)]
pub struct Config {
    pub append_on_file_drop: bool,
    pub directory_mode: ConfigDirectoryMode,
    pub file_extensions: ConfigFileExtensions,
    pub streams: ConfigStreams,
}

impl Default for Config {
    fn default() -> (r: Self)
        ensures
            r.append_on_file_drop == true,
            r.directory_mode == ConfigDirectoryMode::All,
            seq_views(r.file_extensions.audio@) == default_audio_extensions(),
            seq_views(r.file_extensions.image@) == default_image_extensions(),
            seq_views(r.file_extensions.video@) == default_video_extensions(),
            seq_views(r.streams.general@) == default_general_streams(),
    {
        Config {
            append_on_file_drop: true,
            directory_mode: ConfigDirectoryMode::All,
            file_extensions: ConfigFileExtensions::default(),
            streams: ConfigStreams::default(),
        }
    }
}

/// The extension list the selected directory mode makes active; `All`
/// activates none, which downstream means "no filtering".
pub open spec fn active_extensions_spec(config: Config) -> Seq<String> {
    match config.directory_mode {
        ConfigDirectoryMode::Audio => config.file_extensions.audio@,
        ConfigDirectoryMode::Image => config.file_extensions.image@,
        ConfigDirectoryMode::Video => config.file_extensions.video@,
        ConfigDirectoryMode::All => Seq::empty(),
    }
}

/// The file extensions the configuration currently activates.
pub fn get_active_file_extensions(config: &Config) -> (r: Vec<String>)
    ensures
        r@ == active_extensions_spec(*config),
{
    match config.directory_mode {
        ConfigDirectoryMode::Audio => clone_strings(&config.file_extensions.audio),
        ConfigDirectoryMode::Image => clone_strings(&config.file_extensions.image),
        ConfigDirectoryMode::Video => clone_strings(&config.file_extensions.video),
        ConfigDirectoryMode::All => {
            let r: Vec<String> = Vec::new();
            proof {
                assert(r@ =~= Seq::<String>::empty());
            }
            r
        },
    }
}

} // verus!
