use sound_engine::controller::{Action, App, AppMode, Command, Key, Selection};
use sound_engine::effects::ParamKind;
use sound_engine::engine::AudioPlayer;
use sound_engine::files::{DirEntry, FileManager};

fn entry(path: &str, is_dir: bool) -> DirEntry {
    DirEntry { path: path.to_string(), is_dir }
}

fn app_with(entries: Vec<DirEntry>) -> App {
    App::new(AudioPlayer::new(false), FileManager::new("/m".to_string(), entries))
}

fn play_of(c: Command) -> Option<(String, bool)> {
    match c {
        Command::Play { path, looping } => Some((path, looping)),
        _ => None,
    }
}

#[test]
fn q_quits_only_from_normal_mode() {
    let mut app = app_with(Vec::new());
    app.mode = AppMode::Volume;
    app.handle_key_events(Key::Char('q'));
    assert_eq!(app.mode, AppMode::Normal);
    assert!(!app.should_quit);
    app.player.add_message("kept".to_string());
    app.handle_key_events(Key::Esc);
    app.handle_key_events(Key::Char('q'));
    assert!(app.should_quit);
    assert_eq!(app.player.messages, vec!["kept".to_string()]);
    assert_eq!(app.player.last_played, None);
}

#[test]
fn help_menu_opens_modes() {
    let mut app = app_with(Vec::new());
    app.handle_key_events(Key::Char('v'));
    assert_eq!(app.mode, AppMode::Normal);
    app.handle_key_events(Key::Char(' '));
    assert!(app.show_help);
    app.handle_key_events(Key::Char('v'));
    assert_eq!(app.mode, AppMode::Volume);
    assert!(!app.show_help);
    app.handle_key_events(Key::Up);
    app.handle_key_events(Key::Char('k'));
    assert_eq!(app.player.effect_manager.get_volume(), 12);
    app.handle_key_events(Key::Esc);
    assert_eq!(app.mode, AppMode::Normal);
    app.handle_key_events(Key::Char(' '));
    let c = app.handle_key_events(Key::Char('f'));
    assert!(matches!(c, Command::RefreshFiles));
    assert_eq!(app.mode, AppMode::FileBrowser);
}

#[test]
fn parameter_modes_step_their_parameter() {
    let mut app = app_with(Vec::new());
    app.mode = AppMode::Pitch;
    app.handle_key_events(Key::Down);
    assert_eq!(app.player.effect_manager.get_playback_speed(), 9);
    app.mode = AppMode::Filter;
    app.handle_key_events(Key::Char('j'));
    assert_eq!(app.player.effect_manager.get_lowpass_cutoff(), 19500);
    app.mode = AppMode::Normal;
    app.handle_key_events(Key::Char('e'));
    assert!(app.player.effect_manager.is_reverb_enabled());
}

#[test]
fn normal_mode_plays_selection_or_default() {
    let mut app = app_with(Vec::new());
    let c = app.handle_key_events(Key::Char('p'));
    assert_eq!(play_of(c), Some(("example.wav".to_string(), false)));
    assert_eq!(app.current_audio_file, None);
    let mut app = app_with(vec![entry("/m/a.wav", false)]);
    let c = app.handle_key_events(Key::Char('r'));
    assert_eq!(play_of(c), Some(("/m/a.wav".to_string(), true)));
    assert_eq!(app.current_audio_file, Some("a.wav".to_string()));
    let mut app = app_with(vec![entry("/m/d", true)]);
    let c = app.handle_key_events(Key::Char('p'));
    assert!(matches!(c, Command::Nothing));
}

#[test]
fn browser_keys() {
    let mut app = app_with(vec![entry("/m/d", true), entry("/m/a.wav", false)]);
    app.mode = AppMode::FileBrowser;
    let c = app.handle_key_events(Key::Enter);
    match c {
        Command::EnterDirectory(p) => assert_eq!(p, "/m/d"),
        _ => panic!("expected a directory to enter"),
    }
    app.handle_key_events(Key::Char('j'));
    assert_eq!(app.file_manager.selected_index, 1);
    let c = app.handle_key_events(Key::Right);
    assert_eq!(play_of(c), Some(("/m/a.wav".to_string(), false)));
    assert_eq!(app.mode, AppMode::Normal);
    app.mode = AppMode::FileBrowser;
    app.handle_key_events(Key::Char('k'));
    let c = app.handle_key_events(Key::Char('r'));
    assert_eq!(play_of(c), Some(("example.wav".to_string(), true)));
    assert_eq!(app.current_audio_file, Some("example.wav".to_string()));
    assert_eq!(app.mode, AppMode::FileBrowser);
    let c = app.handle_key_events(Key::Left);
    assert!(matches!(c, Command::ParentDirectory));
}

#[test]
fn dispatch_table_lookups() {
    assert_eq!(App::decide(AppMode::Normal, false, Key::Char('q'), Selection::Empty), Action::Quit);
    assert_eq!(
        App::decide(AppMode::Filter, false, Key::Up, Selection::Empty),
        Action::Adjust(ParamKind::Lowpass, true)
    );
    assert_eq!(
        App::decide(AppMode::FileBrowser, false, Key::Char('p'), Selection::OtherFile),
        Action::PlayDefault { looping: false, remember: true }
    );
    assert_eq!(App::decide(AppMode::Normal, false, Key::Other, Selection::Empty), Action::Nothing);
}
