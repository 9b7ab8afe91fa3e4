use vstd::prelude::*;

verus! {

/// Loudest volume, in percent.
pub const MAX_VOLUME: u32 = 100;

/// How much one scroll-wheel notch changes the volume, in percent.
pub const VOLUME_STEP: u32 = 3;

/// A volume level in percent, never above [`MAX_VOLUME`].
pub struct Volume {
    percent: u32,
}

impl View for Volume {
    type V = nat;

    closed spec fn view(&self) -> nat {
        self.percent as nat
    }
}

/// `v` clamped to the loudest volume.
pub open spec fn clamped(v: nat) -> nat {
    if v > MAX_VOLUME { MAX_VOLUME as nat } else { v }
}

impl Volume {
    #[verifier::type_invariant]
    spec fn in_range(self) -> bool {
        self.percent <= MAX_VOLUME
    }

    /// The level `value`, clamped to [`MAX_VOLUME`].
    pub fn clamped(value: u32) -> (r: Volume)
        ensures
            r@ == clamped(value as nat),
    {
        if value > MAX_VOLUME {
            Volume { percent: MAX_VOLUME }
        } else {
            Volume { percent: value }
        }
    }

    pub fn percent(&self) -> (r: u32)
        ensures
            r == self@,
            r <= MAX_VOLUME,
    {
        proof {
            use_type_invariant(self);
        }
        self.percent
    }

    /// One step louder, capped at [`MAX_VOLUME`].
    pub fn raised(&self, step: u32) -> (r: Volume)
        ensures
            r@ == raised(self@, step as nat),
    {
        proof {
            use_type_invariant(self);
        }
        if step > MAX_VOLUME - self.percent {
            Volume { percent: MAX_VOLUME }
        } else {
            Volume { percent: self.percent + step }
        }
    }

    /// One step quieter, floored at silence.
    pub fn lowered(&self, step: u32) -> (r: Volume)
        ensures
            r@ == lowered(self@, step as nat),
    {
        proof {
            use_type_invariant(self);
        }
        if self.percent < step {
            Volume { percent: 0 }
        } else {
            Volume { percent: self.percent - step }
        }
    }
}

/// What the interface believes the player is doing.
#[derive(Clone, Copy, PartialEq, Eq, Structural, Debug)]
pub enum PlayerState {
    Stopped,
    Playing,
    Paused,
}

/// Metadata of the loaded track; both durations are in whole seconds.
#[derive(Clone, Debug)]
pub struct CurrentTrackInfo {
    pub title: String,
    pub artist: String,
    pub album: String,
    pub duration: u64,
    pub played_duration: u64,
}

impl CurrentTrackInfo {
    pub fn new(
        title: String,
        artist: String,
        album: String,
        duration: u64,
        played_duration: u64,
    ) -> (r: Self)
        ensures
            r == (CurrentTrackInfo { title, artist, album, duration, played_duration }),
    {
        CurrentTrackInfo { title, artist, album, duration, played_duration }
    }

    /// The same track with `played_duration` replaced.
    pub open spec fn with_played(self, played: u64) -> Self {
        CurrentTrackInfo { played_duration: played, ..self }
    }

    /// A copy of the track with the elapsed time set to `played`.
    pub fn at_position(&self, played: u64) -> (r: Self)
        ensures
            r == self.with_played(played),
    {
        CurrentTrackInfo {
            title: self.title.clone(),
            artist: self.artist.clone(),
            album: self.album.clone(),
            duration: self.duration,
            played_duration: played,
        }
    }
}

/// A copy of an optional track.
pub fn copy_track(t: &Option<CurrentTrackInfo>) -> (r: Option<CurrentTrackInfo>)
    ensures
        r == *t,
{
    match t {
        Some(info) => Some(info.at_position(info.played_duration)),
        None => None,
    }
}

/// The application state, field by field.
pub struct AppModel {
    pub exit: bool,
    pub player_state: PlayerState,
    pub playlist: Seq<String>,
    pub shuffle_state: bool,
    pub repeat_state: bool,
    pub volume: nat,
    pub current_track: Option<CurrentTrackInfo>,
    pub input: Seq<char>,
}

/// `v + step`, capped at the loudest volume.
pub open spec fn raised(v: nat, step: nat) -> nat {
    if v + step > MAX_VOLUME { MAX_VOLUME as nat } else { v + step }
}

/// `v - step`, floored at silence.
pub open spec fn lowered(v: nat, step: nat) -> nat {
    if v < step { 0 } else { (v - step) as nat }
}

/// The elapsed-time tick: one second more on a loaded track while playing,
/// nothing otherwise.
pub open spec fn ticked(m: AppModel) -> AppModel {
    match m.current_track {
        Some(t) if m.player_state == PlayerState::Playing => AppModel {
            current_track: Some(t.with_played(next_second(t.played_duration))),
            ..m
        },
        _ => m,
    }
}

/// One second after `s`; the count stops at the largest `u64`.
pub open spec fn next_second(s: u64) -> u64 {
    if s == u64::MAX { s } else { (s + 1) as u64 }
}

/// The volume after a run of wheel steps from `v`: `true` is a step up,
/// `false` a step down.
pub open spec fn stepped(v: nat, ups: Seq<bool>) -> nat
    decreases ups.len(),
{
    if ups.len() == 0 {
        v
    } else {
        let before = stepped(v, ups.drop_last());
        if ups.last() {
            raised(before, VOLUME_STEP as nat)
        } else {
            lowered(before, VOLUME_STEP as nat)
        }
    }
}

/// However many wheel steps up and down follow one another, a volume that
/// starts within `[0, MAX_VOLUME]` never leaves it.
pub proof fn lemma_volume_steps_stay_in_range(v: nat, ups: Seq<bool>)
    requires
        v <= MAX_VOLUME,
    ensures
        stepped(v, ups) <= MAX_VOLUME,
    decreases ups.len(),
{
    if ups.len() > 0 {
        lemma_volume_steps_stay_in_range(v, ups.drop_last());
    }
}

/// The state after `n` ticks.
pub open spec fn ticked_n(m: AppModel, n: nat) -> AppModel
    decreases n,
{
    if n == 0 {
        m
    } else {
        ticked(ticked_n(m, (n - 1) as nat))
    }
}

/// `n` ticks while a loaded track plays add exactly `n` seconds to its
/// elapsed time (as long as the count fits a `u64`); while paused or stopped,
/// or with no track, ticks change nothing.
pub proof fn lemma_ticks_advance_elapsed(m: AppModel, n: nat)
    ensures
        m.player_state != PlayerState::Playing ==> ticked_n(m, n) == m,
        m.current_track is None ==> ticked_n(m, n) == m,
        m.player_state == PlayerState::Playing && m.current_track is Some
            && m.current_track->0.played_duration + n <= u64::MAX ==> ticked_n(m, n) == (AppModel {
            current_track: Some(m.current_track->0.with_played((m.current_track->0.played_duration + n) as u64)),
            ..m
        }),
    decreases n,
{
    if n > 0 {
        lemma_ticks_advance_elapsed(m, (n - 1) as nat);
    }
}

/// Application state shared by the dispatcher, the playback worker, the
/// ticker and the render loop.
pub struct AppState {
    exit: bool,
    player_state: PlayerState,
    playlist: Vec<String>,
    shuffle_state: bool,
    repeat_state: bool,
    volume: Volume,
    current_track_info: Option<CurrentTrackInfo>,
    input: String,
}

impl View for AppState {
    type V = AppModel;

    closed spec fn view(&self) -> AppModel {
        AppModel {
            exit: self.exit,
            player_state: self.player_state,
            playlist: self.playlist@,
            shuffle_state: self.shuffle_state,
            repeat_state: self.repeat_state,
            volume: self.volume@,
            current_track: self.current_track_info,
            input: self.input@,
        }
    }
}

impl AppState {
    /// Fresh state: stopped, empty playlist, both toggles off, full volume,
    /// no track.
    pub fn new() -> (r: Self)
        ensures
            !r@.exit,
            r@.player_state == PlayerState::Stopped,
            r@.playlist == Seq::<String>::empty(),
            !r@.shuffle_state,
            !r@.repeat_state,
            r@.volume == MAX_VOLUME,
            r@.current_track is None,
            r@.input == Seq::<char>::empty(),
    {
        AppState {
            exit: false,
            player_state: PlayerState::Stopped,
            playlist: Vec::new(),
            shuffle_state: false,
            repeat_state: false,
            volume: Volume::clamped(MAX_VOLUME),
            current_track_info: None,
            input: String::new(),
        }
    }

    pub fn set_exit(&mut self, value: bool)
        ensures
            final(self)@ == (AppModel { exit: value, ..old(self)@ }),
    {
        self.exit = value;
    }

    pub fn should_exit(&self) -> (r: bool)
        ensures
            r == self@.exit,
    {
        self.exit
    }

    pub fn set_player_state(&mut self, value: PlayerState)
        ensures
            final(self)@ == (AppModel { player_state: value, ..old(self)@ }),
    {
        self.player_state = value;
    }

    pub fn player_state(&self) -> (r: PlayerState)
        ensures
            r == self@.player_state,
    {
        self.player_state
    }

    pub fn set_shuffle_state(&mut self, value: bool)
        ensures
            final(self)@ == (AppModel { shuffle_state: value, ..old(self)@ }),
    {
        self.shuffle_state = value;
    }

    pub fn shuffle_state(&self) -> (r: bool)
        ensures
            r == self@.shuffle_state,
    {
        self.shuffle_state
    }

    pub fn set_repeat_state(&mut self, value: bool)
        ensures
            final(self)@ == (AppModel { repeat_state: value, ..old(self)@ }),
    {
        self.repeat_state = value;
    }

    pub fn repeat_state(&self) -> (r: bool)
        ensures
            r == self@.repeat_state,
    {
        self.repeat_state
    }

    /// Sets the volume, clamped to [`MAX_VOLUME`].
    pub fn set_volume(&mut self, value: u32)
        ensures
            final(self)@ == (AppModel {
                volume: clamped(value as nat),
                ..old(self)@
            }),
    {
        self.volume = Volume::clamped(value);
    }

    pub fn volume(&self) -> (r: u32)
        ensures
            r == self@.volume,
            r <= MAX_VOLUME,
    {
        self.volume.percent()
    }

    /// One scroll step louder, capped at [`MAX_VOLUME`]; returns the new volume.
    pub fn increase_volume(&mut self) -> (r: u32)
        ensures
            final(self)@ == (AppModel { volume: raised(old(self)@.volume, VOLUME_STEP as nat), ..old(self)@ }),
            r == final(self)@.volume,
            r <= MAX_VOLUME,
    {
        self.volume = self.volume.raised(VOLUME_STEP);
        self.volume.percent()
    }

    /// One scroll step quieter, floored at 0; returns the new volume.
    pub fn decrease_volume(&mut self) -> (r: u32)
        ensures
            final(self)@ == (AppModel { volume: lowered(old(self)@.volume, VOLUME_STEP as nat), ..old(self)@ }),
            r == final(self)@.volume,
            r <= MAX_VOLUME,
    {
        self.volume = self.volume.lowered(VOLUME_STEP);
        self.volume.percent()
    }

    /// Appends a track path to the end of the playlist.
    pub fn add_track(&mut self, track_file_path: String)
        ensures
            final(self)@ == (AppModel { playlist: old(self)@.playlist.push(track_file_path), ..old(self)@ }),
    {
        self.playlist.push(track_file_path);
    }

    pub fn playlist(&self) -> (r: Vec<String>)
        ensures
            r@ == self@.playlist,
    {
        self.playlist.clone()
    }

    pub fn set_playlist(&mut self, value: Vec<String>)
        ensures
            final(self)@ == (AppModel { playlist: value@, ..old(self)@ }),
    {
        self.playlist = value;
    }

    pub fn set_current_track_info(&mut self, value: Option<CurrentTrackInfo>)
        ensures
            final(self)@ == (AppModel { current_track: value, ..old(self)@ }),
    {
        self.current_track_info = value;
    }

    pub fn current_track_info(&self) -> (r: Option<CurrentTrackInfo>)
        ensures
            r == self@.current_track,
    {
        copy_track(&self.current_track_info)
    }

    /// Appends typed or pasted text to the scratch input buffer.
    pub fn append_input(&mut self, text: &str)
        ensures
            final(self)@ == (AppModel { input: old(self)@.input + text@, ..old(self)@ }),
    {
        self.input.append(text);
    }

    pub fn input_string(&self) -> (r: String)
        ensures
            r@ == self@.input,
    {
        self.input.clone()
    }

    /// Hands out the scratch input and leaves the buffer empty.
    pub fn take_input(&mut self) -> (r: String)
        ensures
            r@ == old(self)@.input,
            final(self)@ == (AppModel { input: Seq::<char>::empty(), ..old(self)@ }),
    {
        let taken = self.input.clone();
        self.input = String::new();
        taken
    }

    /// The once-a-second tick of elapsed time: while playing a loaded track
    /// the elapsed time grows by one second; paused, stopped or with no track
    /// nothing changes.
    pub fn tick(&mut self)
        ensures
            final(self)@ == ticked(old(self)@),
    {
        if let PlayerState::Playing = self.player_state {
            match &self.current_track_info {
                Some(info) => {
                    let played = info.played_duration.saturating_add(1);
                    let next = info.at_position(played);
                    self.current_track_info = Some(next);
                },
                None => {},
            }
        }
    }
}

} // verus!
