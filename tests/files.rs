use sound_engine::files::{DirEntry, FileManager};

fn entry(path: &str, is_dir: bool) -> DirEntry {
    DirEntry { path: path.to_string(), is_dir }
}

fn listing() -> Vec<DirEntry> {
    vec![
        entry("/m/zeta.mp3", false),
        entry("/m/notes.txt", false),
        entry("/m/beta", true),
        entry("/m/Alpha.WAV", false),
        entry("/m/alpha", true),
        entry("/m/song.flac", false),
        entry("/m/README", false),
        entry("/m/drum.ogg", false),
    ]
}

fn paths(fm: &FileManager) -> Vec<String> {
    fm.entries.iter().map(|e| e.path.clone()).collect()
}

#[test]
fn audio_extensions_any_case() {
    let fm = FileManager::new("/m".to_string(), Vec::new());
    assert!(fm.is_audio_file("/m/a.wav"));
    assert!(fm.is_audio_file("/m/a.MP3"));
    assert!(fm.is_audio_file("x.Ogg"));
    assert!(fm.is_audio_file("x.flac"));
    assert!(!fm.is_audio_file("x.txt"));
    assert!(!fm.is_audio_file("wav"));
    assert!(!fm.is_audio_file(".wav"));
    assert!(!fm.is_audio_file("x.wav.bak"));
}

#[test]
fn listing_keeps_dirs_and_audio_sorted() {
    let fm = FileManager::new("/m".to_string(), listing());
    assert_eq!(
        paths(&fm),
        vec!["/m/alpha", "/m/beta", "/m/Alpha.WAV", "/m/drum.ogg", "/m/song.flac", "/m/zeta.mp3"]
    );
    assert_eq!(fm.selected_index, 0);
}

#[test]
fn selection_wraps_both_ways() {
    let mut fm = FileManager::new("/m".to_string(), listing());
    fm.select_prev();
    assert_eq!(fm.selected_index, 5);
    fm.select_next();
    assert_eq!(fm.selected_index, 0);
    fm.select_next();
    assert_eq!(fm.get_selected_file(), Some("/m/beta".to_string()));
    assert!(fm.selected_is_dir());
}

#[test]
fn empty_listing_has_no_selection() {
    let mut fm = FileManager::new("/m".to_string(), Vec::new());
    fm.select_next();
    fm.select_prev();
    assert_eq!(fm.selected_index, 0);
    assert_eq!(fm.get_selected_file(), None);
    assert!(!fm.selected_is_dir());
}

#[test]
fn refresh_resets_selection_out_of_range() {
    let mut fm = FileManager::new("/m".to_string(), listing());
    fm.selected_index = 5;
    fm.refresh_files(vec![entry("/m/one.wav", false)]);
    assert_eq!(fm.selected_index, 0);
    fm.refresh_files(Vec::new());
    assert_eq!(fm.selected_index, 0);
}

#[test]
fn change_directory_only_into_directories() {
    let mut fm = FileManager::new("/m".to_string(), listing());
    fm.select_next();
    fm.change_directory("/m/zeta.mp3".to_string(), None);
    assert_eq!(fm.current_dir, "/m");
    assert_eq!(fm.selected_index, 1);
    fm.change_directory("/m/beta".to_string(), Some(vec![entry("/m/beta/x.wav", false)]));
    assert_eq!(fm.current_dir, "/m/beta");
    assert_eq!(fm.selected_index, 0);
    assert_eq!(paths(&fm), vec!["/m/beta/x.wav"]);
}

#[test]
fn parent_directory_and_root() {
    let mut fm = FileManager::new("/m/beta".to_string(), Vec::new());
    assert_eq!(fm.parent_dir(), Some("/m".to_string()));
    fm.go_to_parent_dir(listing());
    assert_eq!(fm.current_dir, "/m");
    assert_eq!(fm.entries.len(), 6);
    let mut root = FileManager::new("/".to_string(), Vec::new());
    assert_eq!(root.parent_dir(), None);
    root.go_to_parent_dir(listing());
    assert_eq!(root.current_dir, "/");
    assert!(root.entries.is_empty());
}

#[test]
fn files_sort_by_name_not_by_full_path() {
    let fm = FileManager::new(
        "/m".to_string(),
        vec![entry("/z/a.wav", false), entry("/a/b.wav", false), entry("/q/c", true)],
    );
    assert_eq!(paths(&fm), vec!["/q/c", "/z/a.wav", "/a/b.wav"]);
}
