use channel9::fs::{
    app_dir, config_path, ensure_parent, is_wav_file, join, list_directory, next_recording_path,
    recording_file_name, recordings_dir, recordings_listing, str_less, FileEntry, FsError,
};
use channel9::menu::state::RecordingItem;
use channel9::storage::JsonConfigStore;

fn entry(name: &str, is_dir: bool) -> FileEntry {
    FileEntry { name: name.to_string(), is_dir, operation: false, size_bytes: 1 }
}

fn back() -> FileEntry {
    FileEntry { name: "> Back".to_string(), is_dir: false, operation: true, size_bytes: 0 }
}

fn item(name: &str) -> RecordingItem {
    RecordingItem { name: name.to_string(), path: format!("/r/{name}"), size_bytes: 10 }
}

#[test]
fn paths_under_the_root() {
    assert_eq!(app_dir("/sdcard"), "/sdcard/channel9");
    assert_eq!(config_path("/sdcard"), "/sdcard/channel9/config.json");
    assert_eq!(recordings_dir("/sdcard/"), "/sdcard/channel9/recordings");
    assert_eq!(join("", "a"), "a");
    assert_eq!(JsonConfigStore::new("/sdcard".to_string()).path(), "/sdcard/channel9/config.json");
}

#[test]
fn parent_directories() {
    assert_eq!(ensure_parent("/sdcard/channel9/config.json"), Ok("/sdcard/channel9".to_string()));
    assert_eq!(ensure_parent("/sdcard/channel9/"), Ok("/sdcard".to_string()));
    assert_eq!(ensure_parent("/a"), Ok("/".to_string()));
    assert_eq!(ensure_parent("config.json"), Ok(String::new()));
    let err = ensure_parent("/").unwrap_err();
    assert_eq!(err, FsError::NoParent { path: "/".to_string() });
    assert_eq!(err.message(), "path does not have a parent directory /");
    assert!(ensure_parent("").is_err());
}

#[test]
fn recording_names_are_zero_padded() {
    assert_eq!(recording_file_name(1), "rec_001.wav");
    assert_eq!(recording_file_name(42), "rec_042.wav");
    assert_eq!(recording_file_name(999), "rec_999.wav");
}

#[test]
fn next_recording_takes_first_free_name() {
    let taken = vec!["rec_001.wav".to_string(), "rec_002.wav".to_string(), "rec_004.wav".to_string()];
    assert_eq!(
        next_recording_path("/sdcard", &taken),
        Ok("/sdcard/channel9/recordings/rec_003.wav".to_string())
    );
    assert_eq!(
        next_recording_path("/sdcard", &Vec::new()),
        Ok("/sdcard/channel9/recordings/rec_001.wav".to_string())
    );
    let full: Vec<String> = (1..=999).map(recording_file_name).collect();
    let err = next_recording_path("/sdcard", &full).unwrap_err();
    assert_eq!(err, FsError::RecordingsFull);
    assert_eq!(err.message(), "recording directory is full");
}

#[test]
fn listing_puts_directories_first_then_names() {
    let entries = vec![entry("b.txt", false), entry("zdir", true), entry("a.txt", false), entry("adir", true)];
    assert_eq!(
        list_directory(&entries, 10),
        vec![entry("adir", true), entry("zdir", true), entry("a.txt", false), entry("b.txt", false), back()]
    );
    assert_eq!(list_directory(&entries, 2), vec![entry("zdir", true), entry("b.txt", false), back()]);
    assert_eq!(list_directory(&entries, 0), vec![entry("b.txt", false), back()]);
    assert_eq!(list_directory(&Vec::new(), 5), vec![back()]);
    assert!(str_less("abc", "abd"));
    assert!(str_less("ab", "abc"));
    assert!(!str_less("b", "B"));
}

#[test]
fn recordings_are_wav_files_newest_name_first() {
    assert!(is_wav_file("rec_001.wav"));
    assert!(!is_wav_file(".wav"));
    assert!(!is_wav_file("notes.WAV"));
    assert!(!is_wav_file("wav"));
    let items = vec![item("rec_001.wav"), item("notes.txt"), item("rec_003.wav"), item("rec_002.wav")];
    let listed = recordings_listing(&items);
    let names: Vec<&str> = listed.iter().map(|r| r.name.as_str()).collect();
    assert_eq!(names, vec!["rec_003.wav", "rec_002.wav", "rec_001.wav"]);
}
