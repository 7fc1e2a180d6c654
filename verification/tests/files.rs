use bettermediainfo::config::{get_active_file_extensions, Config, ConfigDirectoryMode};
use bettermediainfo::controller::{filter_files_by_extensions, get_files, validate_path_as_file,
    DirEntry, MediaError, PathKind, PathListing};
use bettermediainfo::paths::get_extension;

fn strings(values: &[&str]) -> Vec<String> {
    values.iter().map(|v| String::from(*v)).collect()
}

#[test]
fn unfiltered_by_default() {
    // empty active-extensions configuration: every file passes through
    let config = Config::default();
    assert!(matches!(config.directory_mode, ConfigDirectoryMode::All));
    let active = get_active_file_extensions(&config);
    assert!(active.is_empty());
    let paths = strings(&["a.mkv", "b.xyz", "c"]);
    let filtered = filter_files_by_extensions(&paths, &active);
    assert_eq!(filtered, paths);
}

#[test]
fn extension_filter_keeps_matching_files_only() {
    let paths = strings(&["a.mkv", "b.xyz", "c", "d.mp4", "e.MKV"]);
    let extensions = strings(&["mkv", "mp4"]);
    let filtered = filter_files_by_extensions(&paths, &extensions);
    // comparison is character-exact, so e.MKV does not match mkv
    assert_eq!(filtered, strings(&["a.mkv", "d.mp4"]));
}

#[test]
fn active_extensions_follow_directory_mode() {
    let mut config = Config::default();
    config.directory_mode = ConfigDirectoryMode::Audio;
    assert_eq!(get_active_file_extensions(&config), config.file_extensions.audio);
    config.directory_mode = ConfigDirectoryMode::Image;
    assert_eq!(get_active_file_extensions(&config), config.file_extensions.image);
    config.directory_mode = ConfigDirectoryMode::Video;
    assert_eq!(get_active_file_extensions(&config), config.file_extensions.video);
}

#[test]
fn default_extension_lists() {
    let config = Config::default();
    assert_eq!(
        config.file_extensions.audio,
        strings(&["mp3", "aac", "flac", "wav", "ogg", "m4a", "mka", "ape", "ac3", "dts"])
    );
    assert_eq!(config.file_extensions.image, strings(&["jpg", "jpeg", "png", "gif", "bmp", "tif"]));
    assert_eq!(
        config.file_extensions.video,
        strings(&["mkv", "mp4", "m2ts", "ts", "avi", "mov", "wmv", "flv", "webm"])
    );
    assert!(config.append_on_file_drop);
}

#[test]
fn default_general_stream_list() {
    let config = Config::default();
    assert_eq!(
        config.streams.general,
        strings(&[
            "CompleteName",
            "Duration",
            "Encoded_Application",
            "Encoded_Date",
            "Encoded_Library",
            "FileSize",
            "Format",
            "FrameRate",
            "Movie",
            "OverallBitRate",
            "Title",
            "UniqueID",
        ])
    );
}

#[test]
fn directory_expansion_is_shallow() {
    // a directory with one file and one subdirectory: the file is listed,
    // the subdirectory and its contents are not
    let listing = PathListing {
        path: String::from("media"),
        kind: PathKind::Directory,
        children: vec![
            DirEntry { path: String::from("media/movie.mkv"), kind: PathKind::File },
            DirEntry { path: String::from("media/season2"), kind: PathKind::Directory },
        ],
    };
    let result = get_files(&vec![listing], &Vec::new()).unwrap();
    assert_eq!(result, strings(&["media/movie.mkv"]));
}

#[test]
fn get_files_flattens_in_input_order() {
    let inputs = vec![
        PathListing { path: String::from("one.mkv"), kind: PathKind::File, children: Vec::new() },
        PathListing {
            path: String::from("dir"),
            kind: PathKind::Directory,
            children: vec![
                DirEntry { path: String::from("dir/a.mp4"), kind: PathKind::File },
                DirEntry { path: String::from("dir/b.txt"), kind: PathKind::File },
            ],
        },
        PathListing { path: String::from("two.xyz"), kind: PathKind::File, children: Vec::new() },
    ];
    let all = get_files(&inputs, &Vec::new()).unwrap();
    assert_eq!(all, strings(&["one.mkv", "dir/a.mp4", "dir/b.txt", "two.xyz"]));
    let filtered = get_files(&inputs, &strings(&["mp4", "mkv"])).unwrap();
    assert_eq!(filtered, strings(&["one.mkv", "dir/a.mp4"]));
}

#[test]
fn get_files_fails_on_missing_path() {
    let inputs = vec![
        PathListing { path: String::from("ok.mkv"), kind: PathKind::File, children: Vec::new() },
        PathListing { path: String::from("gone.mkv"), kind: PathKind::Missing, children: Vec::new() },
    ];
    let error = get_files(&inputs, &Vec::new()).unwrap_err();
    match error {
        MediaError::PathNotFound(path) => assert_eq!(path, "gone.mkv"),
        MediaError::PathNotFile(_) => panic!("wrong error variant"),
    }
}

#[test]
fn validate_path_accepts_files_only() {
    assert!(validate_path_as_file("a.mkv", PathKind::File).is_ok());
    let missing = validate_path_as_file("a.mkv", PathKind::Missing).unwrap_err();
    assert_eq!(missing.message(), "Path a.mkv does not exist.");
    let directory = validate_path_as_file("d", PathKind::Directory).unwrap_err();
    assert_eq!(directory.message(), "Path d is not a file.");
    let other = validate_path_as_file("s", PathKind::Other).unwrap_err();
    assert_eq!(other.message(), "Path s is not a file.");
}

#[test]
fn extension_rule() {
    assert_eq!(get_extension("a.mkv"), Some(String::from("mkv")));
    assert_eq!(get_extension("dir/a.tar.gz"), Some(String::from("gz")));
    assert_eq!(get_extension("dir.d/file"), None);
    assert_eq!(get_extension(".hidden"), None);
    assert_eq!(get_extension("trailing."), Some(String::from("")));
    assert_eq!(get_extension("plain"), None);
    assert_eq!(get_extension("back\\slash.png"), Some(String::from("png")));
    assert_eq!(get_extension(""), None);
}
