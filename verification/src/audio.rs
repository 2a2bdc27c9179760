//! The background music: when it starts, halts, goes on and stops.
//!
//! The rules here decide; the caller holds the track and does what they
//! ask of it.

use vstd::prelude::*;
use crate::state::GameState;

verus! {

/// What the music is meant to do, and whether a track is held.
#[derive(Clone, Copy, Debug, PartialEq, Eq, Structural)]
pub struct MusicState {
    /// The music is switched on.
    pub playing: bool,
    /// A track has been started and is held.
    pub has_track: bool,
}

/// What the caller is asked to do with the track.
#[derive(Clone, Copy, Debug, PartialEq, Eq, Structural)]
pub enum MusicAction {
    /// Nothing.
    Keep,
    /// Start the track from its beginning, looped, and hold it.
    Start,
    /// Halt the held track.
    Pause,
    /// Let the held track go on.
    Resume,
    /// Stop the held track and let go of it.
    Stop,
}

impl MusicState {
    /// The music before anything was played: switched off, no track held.
    pub open spec fn silent() -> MusicState {
        MusicState { playing: false, has_track: false }
    }

    /// The state and the request when play is entered: music that is
    /// switched off is switched on and started.
    pub open spec fn started(self) -> (MusicState, MusicAction) {
        if !self.playing {
            (MusicState { playing: true, has_track: true }, MusicAction::Start)
        } else {
            (self, MusicAction::Keep)
        }
    }

    /// The request when the match is halted: a held track is halted.
    pub open spec fn paused(self) -> MusicAction {
        if self.has_track {
            MusicAction::Pause
        } else {
            MusicAction::Keep
        }
    }

    /// The request when the match goes on: a held track goes on if the
    /// music is switched on.
    pub open spec fn resumed(self) -> MusicAction {
        if self.playing && self.has_track {
            MusicAction::Resume
        } else {
            MusicAction::Keep
        }
    }

    /// The state and the request after the music key: switched on, the
    /// track is started anew; switched off, a held track is stopped and
    /// let go of.
    pub open spec fn toggled(self) -> (MusicState, MusicAction) {
        if !self.playing {
            (MusicState { playing: true, has_track: true }, MusicAction::Start)
        } else if self.has_track {
            (MusicState { playing: false, has_track: false }, MusicAction::Stop)
        } else {
            (MusicState { playing: false, has_track: false }, MusicAction::Keep)
        }
    }
}

impl Default for MusicState {
    fn default() -> (state: MusicState)
        ensures
            state == MusicState::silent(),
    {
        MusicState { playing: false, has_track: false }
    }
}

/// Starts the music when play is entered, unless it is switched on
/// already.
pub fn start_background_music(music: &mut MusicState) -> (action: MusicAction)
    ensures
        (*final(music), action) == old(music).started(),
{
    if !music.playing {
        music.has_track = true;
        music.playing = true;
        MusicAction::Start
    } else {
        MusicAction::Keep
    }
}

/// Halts the music without switching it off.
pub fn pause_background_music(music: &MusicState) -> (action: MusicAction)
    ensures
        action == music.paused(),
{
    if music.has_track {
        MusicAction::Pause
    } else {
        MusicAction::Keep
    }
}

/// Lets the music go on if it is switched on.
pub fn resume_background_music(music: &MusicState) -> (action: MusicAction)
    ensures
        action == music.resumed(),
{
    if music.playing && music.has_track {
        MusicAction::Resume
    } else {
        MusicAction::Keep
    }
}

/// Switches the music on or off when the music key is pressed.
pub fn handle_music_toggle(music: &mut MusicState, key_pressed: bool) -> (action: MusicAction)
    ensures
        (*final(music), action) == (if key_pressed {
            old(music).toggled()
        } else {
            (*old(music), MusicAction::Keep)
        }),
{
    if !key_pressed {
        return MusicAction::Keep;
    }
    music.playing = !music.playing;
    if music.playing {
        music.has_track = true;
        MusicAction::Start
    } else if music.has_track {
        music.has_track = false;
        MusicAction::Stop
    } else {
        MusicAction::Keep
    }
}

/// Ties the music to the screens of the match: it starts when play is
/// entered, halts when play is left or the pause screen entered, and goes
/// on when the pause screen is left.
#[derive(Clone, Copy, Debug, PartialEq, Eq, Structural)]
pub struct MusicPlugin;

impl MusicPlugin {
    /// The state and the request when the match leaves the screen `left`.
    pub open spec fn after_exit(music: MusicState, left: GameState) -> (MusicState, MusicAction) {
        match left {
            GameState::Playing => (music, music.paused()),
            GameState::Paused => (music, music.resumed()),
            _ => (music, MusicAction::Keep),
        }
    }

    /// The state and the request when the match enters the screen
    /// `entered`.
    pub open spec fn after_enter(music: MusicState, entered: GameState) -> (MusicState, MusicAction) {
        match entered {
            GameState::Playing => music.started(),
            GameState::Paused => (music, music.paused()),
            _ => (music, MusicAction::Keep),
        }
    }

    /// The music at the start of the program.
    pub fn build(&self) -> (music: MusicState)
        ensures
            music == MusicState::silent(),
    {
        MusicState { playing: false, has_track: false }
    }

    /// What the music does when the match leaves the screen `left`.
    pub fn on_exit(&self, music: &mut MusicState, left: GameState) -> (action: MusicAction)
        ensures
            (*final(music), action) == MusicPlugin::after_exit(*old(music), left),
    {
        match left {
            GameState::Playing => pause_background_music(music),
            GameState::Paused => resume_background_music(music),
            _ => MusicAction::Keep,
        }
    }

    /// What the music does when the match enters the screen `entered`.
    pub fn on_enter(&self, music: &mut MusicState, entered: GameState) -> (action: MusicAction)
        ensures
            (*final(music), action) == MusicPlugin::after_enter(*old(music), entered),
    {
        match entered {
            GameState::Playing => start_background_music(music),
            GameState::Paused => pause_background_music(music),
            _ => MusicAction::Keep,
        }
    }
}

} // verus!
