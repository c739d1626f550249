use vstd::prelude::*;
use vstd::string::StringExecFns;

use crate::effects::{adjusted, toggled, ParamKind};
use crate::engine::AudioPlayer;
use crate::files::{audio_path, file_name_of, next_index, path_file_name, prev_index, FileManager};

verus! {

/// Which control the keys act on.
#[derive(Clone, Copy, Debug, PartialEq, Eq, Structural)]
pub enum AppMode {
    Normal,
    Volume,
    Pitch,
    Filter,
    FileBrowser,
}

/// A key press, as far as the controls tell keys apart.
#[derive(Clone, Copy, Debug, PartialEq, Eq, Structural)]
pub enum Key {
    Char(char),
    Esc,
    Up,
    Down,
    Left,
    Right,
    Enter,
    Other,
}

/// What the selected entry of the browser is.
#[derive(Clone, Copy, Debug, PartialEq, Eq, Structural)]
pub enum Selection {
    Empty,
    Directory,
    AudioFile,
    OtherFile,
}

/// What a key press does.
#[derive(Clone, Copy, Debug, PartialEq, Eq, Structural)]
pub enum Action {
    Nothing,
    Quit,
    /// Back to the normal mode, the help menu as it is.
    BackToNormal,
    /// Back to the normal mode with the help menu closed.
    Escape,
    ToggleHelp,
    /// Enters a mode from the help menu, closing it.
    OpenMode(AppMode),
    Adjust(ParamKind, bool),
    ToggleReverb,
    SelectNext,
    SelectPrev,
    ParentDirectory,
    EnterDirectory,
    /// Plays the selected file; `leave_browser` returns to the normal mode.
    PlaySelected { looping: bool, leave_browser: bool },
    /// Plays the default file; `remember` records it as the current file.
    PlayDefault { looping: bool, remember: bool },
}

/// The outside work that a key press asks for.
pub enum Command {
    Nothing,
    /// Read the file and start it.
    Play { path: String, looping: bool },
    /// List the current directory again.
    RefreshFiles,
    /// List `path` and enter it.
    EnterDirectory(String),
    /// List the parent of the current directory and go up to it.
    ParentDirectory,
}

/// The file that plays when nothing playable is selected.
pub open spec fn default_file() -> Seq<char> {
    "example.wav"@
}

/// The adjustment that the up and down keys make in a parameter mode.
pub open spec fn step_action(kind: ParamKind, key: Key) -> Action {
    match key {
        Key::Char('j') | Key::Down => Action::Adjust(kind, false),
        Key::Char('k') | Key::Up => Action::Adjust(kind, true),
        _ => Action::Nothing,
    }
}

/// The action of a key in the normal mode.
pub open spec fn normal_action(show_help: bool, key: Key, sel: Selection) -> Action {
    match key {
        Key::Char(' ') => Action::ToggleHelp,
        Key::Char('p') | Key::Char('r') => {
            let looping = key == Key::Char('r');
            match sel {
                Selection::Empty => Action::PlayDefault { looping, remember: false },
                Selection::AudioFile => Action::PlaySelected { looping, leave_browser: false },
                _ => Action::Nothing,
            }
        },
        Key::Char('v') => if show_help { Action::OpenMode(AppMode::Volume) } else { Action::Nothing },
        Key::Char('c') => if show_help { Action::OpenMode(AppMode::Pitch) } else { Action::Nothing },
        Key::Char('g') => if show_help { Action::OpenMode(AppMode::Filter) } else { Action::Nothing },
        Key::Char('f') => if show_help {
            Action::OpenMode(AppMode::FileBrowser)
        } else {
            Action::Nothing
        },
        Key::Char('e') => Action::ToggleReverb,
        _ => Action::Nothing,
    }
}

/// The action of a key in the file browser.
pub open spec fn browser_action(key: Key, sel: Selection) -> Action {
    match key {
        Key::Char('j') | Key::Down => Action::SelectNext,
        Key::Char('k') | Key::Up => Action::SelectPrev,
        Key::Char('h') | Key::Left => Action::ParentDirectory,
        Key::Char('l') | Key::Right | Key::Enter => match sel {
            Selection::Directory => Action::EnterDirectory,
            Selection::AudioFile => Action::PlaySelected { looping: false, leave_browser: true },
            _ => Action::Nothing,
        },
        Key::Char('p') | Key::Char('r') => {
            let looping = key == Key::Char('r');
            match sel {
                Selection::AudioFile => Action::PlaySelected { looping, leave_browser: false },
                _ => Action::PlayDefault { looping, remember: true },
            }
        },
        _ => Action::Nothing,
    }
}

/// The dispatch table: what a key does in a mode. `q` quits from the normal
/// mode and returns to it from the others; Esc always returns to it.
pub open spec fn action_for(mode: AppMode, show_help: bool, key: Key, sel: Selection) -> Action {
    match key {
        Key::Char('q') => if mode == AppMode::Normal { Action::Quit } else { Action::BackToNormal },
        Key::Esc => Action::Escape,
        _ => match mode {
            AppMode::Normal => normal_action(show_help, key, sel),
            AppMode::Volume => step_action(ParamKind::Volume, key),
            AppMode::Pitch => step_action(ParamKind::Speed, key),
            AppMode::Filter => step_action(ParamKind::Lowpass, key),
            AppMode::FileBrowser => browser_action(key, sel),
        },
    }
}

/// The mode after an action.
pub open spec fn mode_after(mode: AppMode, a: Action) -> AppMode {
    match a {
        Action::BackToNormal | Action::Escape => AppMode::Normal,
        Action::OpenMode(m) => m,
        Action::PlaySelected { leave_browser: true, .. } => AppMode::Normal,
        _ => mode,
    }
}

/// Whether the help menu shows after an action.
pub open spec fn help_after(show_help: bool, a: Action) -> bool {
    match a {
        Action::Escape | Action::OpenMode(_) => false,
        Action::ToggleHelp => !show_help,
        _ => show_help,
    }
}

/// The application state: the engine, the file browser and the controls.
pub struct App {
    pub player: AudioPlayer,
    pub file_manager: FileManager,
    pub should_quit: bool,
    pub mode: AppMode,
    pub show_help: bool,
    /// The name of the file last asked to play.
    pub current_audio_file: Option<String>,
}

impl App {
    pub open spec fn wf(&self) -> bool {
        self.player.wf() && self.file_manager.wf()
    }

    /// What the selected entry of the browser is.
    pub open spec fn selection(&self) -> Selection {
        let e = self.file_manager.entries@;
        if e.len() == 0 {
            Selection::Empty
        } else if e[self.file_manager.selected_index as int].is_dir {
            Selection::Directory
        } else if audio_path(e[self.file_manager.selected_index as int].path@) {
            Selection::AudioFile
        } else {
            Selection::OtherFile
        }
    }

    /// What `key` does in the current state.
    pub open spec fn action(&self, key: Key) -> Action {
        action_for(self.mode, self.show_help, key, self.selection())
    }

    pub open spec fn selected_path(&self) -> Seq<char> {
        self.file_manager.entries@[self.file_manager.selected_index as int].path@
    }

    pub fn new(player: AudioPlayer, file_manager: FileManager) -> (r: Self)
        ensures
            r.player == player,
            r.file_manager == file_manager,
            !r.should_quit,
            r.mode == AppMode::Normal,
            !r.show_help,
            r.current_audio_file.is_none(),
    {
        App {
            player,
            file_manager,
            should_quit: false,
            mode: AppMode::Normal,
            show_help: false,
            current_audio_file: None,
        }
    }

    /// Classifies the selected entry of the browser.
    pub fn selected_kind(&self) -> (r: Selection)
        requires
            self.wf(),
        ensures
            r == self.selection(),
    {
        if self.file_manager.entries.len() == 0 {
            Selection::Empty
        } else if self.file_manager.selected_is_dir() {
            Selection::Directory
        } else {
            let e = &self.file_manager.entries[self.file_manager.selected_index];
            if self.file_manager.is_audio_file(e.path.as_str()) {
                Selection::AudioFile
            } else {
                Selection::OtherFile
            }
        }
    }

    /// Looks a key up in the dispatch table.
    pub fn decide(mode: AppMode, show_help: bool, key: Key, sel: Selection) -> (r: Action)
        ensures
            r == action_for(mode, show_help, key, sel),
    {
        if key == Key::Char('q') {
            return if mode == AppMode::Normal { Action::Quit } else { Action::BackToNormal };
        }
        if key == Key::Esc {
            return Action::Escape;
        }
        match mode {
            AppMode::Normal => match key {
                Key::Char(' ') => Action::ToggleHelp,
                Key::Char('p') | Key::Char('r') => {
                    let looping = key == Key::Char('r');
                    match sel {
                        Selection::Empty => Action::PlayDefault { looping, remember: false },
                        Selection::AudioFile => Action::PlaySelected {
                            looping,
                            leave_browser: false,
                        },
                        _ => Action::Nothing,
                    }
                },
                Key::Char('v') => if show_help {
                    Action::OpenMode(AppMode::Volume)
                } else {
                    Action::Nothing
                },
                Key::Char('c') => if show_help {
                    Action::OpenMode(AppMode::Pitch)
                } else {
                    Action::Nothing
                },
                Key::Char('g') => if show_help {
                    Action::OpenMode(AppMode::Filter)
                } else {
                    Action::Nothing
                },
                Key::Char('f') => if show_help {
                    Action::OpenMode(AppMode::FileBrowser)
                } else {
                    Action::Nothing
                },
                Key::Char('e') => Action::ToggleReverb,
                _ => Action::Nothing,
            },
            AppMode::Volume => Self::step(ParamKind::Volume, key),
            AppMode::Pitch => Self::step(ParamKind::Speed, key),
            AppMode::Filter => Self::step(ParamKind::Lowpass, key),
            AppMode::FileBrowser => match key {
                Key::Char('j') | Key::Down => Action::SelectNext,
                Key::Char('k') | Key::Up => Action::SelectPrev,
                Key::Char('h') | Key::Left => Action::ParentDirectory,
                Key::Char('l') | Key::Right | Key::Enter => match sel {
                    Selection::Directory => Action::EnterDirectory,
                    Selection::AudioFile => Action::PlaySelected {
                        looping: false,
                        leave_browser: true,
                    },
                    _ => Action::Nothing,
                },
                Key::Char('p') | Key::Char('r') => {
                    let looping = key == Key::Char('r');
                    match sel {
                        Selection::AudioFile => Action::PlaySelected {
                            looping,
                            leave_browser: false,
                        },
                        _ => Action::PlayDefault { looping, remember: true },
                    }
                },
                _ => Action::Nothing,
            },
        }
    }

    fn step(kind: ParamKind, key: Key) -> (r: Action)
        ensures
            r == step_action(kind, key),
    {
        match key {
            Key::Char('j') | Key::Down => Action::Adjust(kind, false),
            Key::Char('k') | Key::Up => Action::Adjust(kind, true),
            _ => Action::Nothing,
        }
    }

    /// Handles one key press: updates the controls, the effect parameters
    /// and the browser's selection, and returns the outside work it asks for.
    pub fn handle_key_events(&mut self, key: Key) -> (r: Command)
        requires
            old(self).wf(),
        ensures
            final(self).wf(),
            final(self).mode == mode_after(old(self).mode, old(self).action(key)),
            final(self).show_help == help_after(old(self).show_help, old(self).action(key)),
            final(self).should_quit == (old(self).should_quit || old(self).action(key) == Action::Quit),
            final(self).player == (AudioPlayer {
                effect_manager: match old(self).action(key) {
                    Action::Adjust(k, up) => adjusted(old(self).player.effect_manager, k, up),
                    Action::ToggleReverb => toggled(old(self).player.effect_manager),
                    _ => old(self).player.effect_manager,
                },
                ..old(self).player
            }),
            final(self).file_manager == (FileManager {
                selected_index: match old(self).action(key) {
                    Action::SelectNext => next_index(
                        old(self).file_manager.selected_index,
                        old(self).file_manager.entries@.len(),
                    ),
                    Action::SelectPrev => prev_index(
                        old(self).file_manager.selected_index,
                        old(self).file_manager.entries@.len(),
                    ),
                    _ => old(self).file_manager.selected_index,
                },
                ..old(self).file_manager
            }),
            match old(self).action(key) {
                Action::PlaySelected { looping, .. } => {
                    &&& r matches Command::Play { path, looping: l }
                    &&& path@ == old(self).selected_path()
                    &&& l == looping
                    &&& match final(self).current_audio_file {
                        Some(c) => file_name_of(old(self).selected_path()) == Some(c@),
                        None => file_name_of(old(self).selected_path()).is_none(),
                    }
                },
                Action::PlayDefault { looping, remember } => {
                    &&& r matches Command::Play { path, looping: l }
                    &&& path@ == default_file()
                    &&& l == looping
                    &&& remember ==> (final(self).current_audio_file matches Some(c) && c@
                        == default_file())
                    &&& !remember ==> final(self).current_audio_file
                        == old(self).current_audio_file
                },
                Action::EnterDirectory => {
                    &&& r matches Command::EnterDirectory(path)
                    &&& path@ == old(self).selected_path()
                    &&& final(self).current_audio_file == old(self).current_audio_file
                },
                Action::ParentDirectory => {
                    &&& r is ParentDirectory
                    &&& final(self).current_audio_file == old(self).current_audio_file
                },
                Action::OpenMode(AppMode::FileBrowser) => {
                    &&& r is RefreshFiles
                    &&& final(self).current_audio_file == old(self).current_audio_file
                },
                _ => {
                    &&& r is Nothing
                    &&& final(self).current_audio_file == old(self).current_audio_file
                },
            },
    {
        let sel = self.selected_kind();
        let a = Self::decide(self.mode, self.show_help, key, sel);
        match a {
            Action::Nothing => Command::Nothing,
            Action::Quit => {
                self.should_quit = true;
                Command::Nothing
            },
            Action::BackToNormal => {
                self.mode = AppMode::Normal;
                Command::Nothing
            },
            Action::Escape => {
                self.mode = AppMode::Normal;
                self.show_help = false;
                Command::Nothing
            },
            Action::ToggleHelp => {
                self.show_help = !self.show_help;
                Command::Nothing
            },
            Action::OpenMode(m) => {
                self.mode = m;
                self.show_help = false;
                if m == AppMode::FileBrowser {
                    Command::RefreshFiles
                } else {
                    Command::Nothing
                }
            },
            Action::Adjust(kind, up) => {
                self.player.effect_manager.adjust(kind, up);
                Command::Nothing
            },
            Action::ToggleReverb => {
                self.player.effect_manager.toggle_reverb();
                Command::Nothing
            },
            Action::SelectNext => {
                self.file_manager.select_next();
                Command::Nothing
            },
            Action::SelectPrev => {
                self.file_manager.select_prev();
                Command::Nothing
            },
            Action::ParentDirectory => Command::ParentDirectory,
            Action::EnterDirectory => {
                let path = self.file_manager.entries[self.file_manager.selected_index].path.clone();
                Command::EnterDirectory(path)
            },
            Action::PlaySelected { looping, leave_browser } => {
                let path = self.file_manager.entries[self.file_manager.selected_index].path.clone();
                self.current_audio_file = path_file_name(path.as_str());
                if leave_browser {
                    self.mode = AppMode::Normal;
                }
                Command::Play { path, looping }
            },
            Action::PlayDefault { looping, remember } => {
                let path = String::from_str("example.wav");
                proof {
                    reveal_strlit("example.wav");
                }
                if remember {
                    self.current_audio_file = Some(path.clone());
                }
                Command::Play { path, looping }
            },
        }
    }
}

} // verus!
