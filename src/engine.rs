use vstd::prelude::*;

use crate::state::{AppModel, AppState, CurrentTrackInfo, PlayerState};

verus! {

/// A fraction `numerator / denominator` between 0 and 1.
#[derive(Clone, Copy, Debug)]
pub struct Ratio {
    numerator: u16,
    denominator: u16,
}

impl View for Ratio {
    type V = (nat, nat);

    closed spec fn view(&self) -> (nat, nat) {
        (self.numerator as nat, self.denominator as nat)
    }
}

/// `total` scaled by the fraction `r`, rounded down.
pub open spec fn scaled(r: (nat, nat), total: nat) -> nat {
    total * r.0 / r.1
}

impl Ratio {
    #[verifier::type_invariant]
    spec fn proper(self) -> bool {
        0 < self.denominator && self.numerator <= self.denominator
    }

    /// `numerator / denominator`, or `None` unless `0 < denominator` and
    /// `numerator <= denominator`.
    pub fn new(numerator: u16, denominator: u16) -> (r: Option<Ratio>)
        ensures
            r is Some <==> 0 < denominator && numerator <= denominator,
            r matches Some(q) ==> q@ == (numerator as nat, denominator as nat),
    {
        if 0 < denominator && numerator <= denominator {
            Some(Ratio { numerator, denominator })
        } else {
            None
        }
    }

    pub fn numerator(&self) -> (r: u16)
        ensures
            r == self@.0,
            r <= self@.1,
    {
        proof {
            use_type_invariant(self);
        }
        self.numerator
    }

    pub fn denominator(&self) -> (r: u16)
        ensures
            r == self@.1,
            0 < r,
    {
        proof {
            use_type_invariant(self);
        }
        self.denominator
    }

    /// `total × ratio`, rounded down; never more than `total`.
    pub fn scale(&self, total: u64) -> (r: u64)
        ensures
            r == scaled(self@, total as nat),
            r <= total,
    {
        proof {
            use_type_invariant(self);
        }
        assert(total as int * self.numerator as int <= u64::MAX as int * u16::MAX as int) by (nonlinear_arith)
            requires
                total <= u64::MAX,
                self.numerator <= u16::MAX,
        ;
        let product: u128 = total as u128 * self.numerator as u128;
        let q: u128 = product / self.denominator as u128;
        proof {
            let t = total as int;
            let n = self.numerator as int;
            let d = self.denominator as int;
            assert(t * n <= t * d) by (nonlinear_arith)
                requires
                    0 <= t,
                    0 <= n <= d,
            ;
            assert((t * n) / d <= t) by (nonlinear_arith)
                requires
                    0 <= t,
                    0 <= n,
                    0 < d,
                    t * n <= t * d,
            ;
        }
        q as u64
    }
}

/// A request to the audio engine.
#[derive(Clone, Debug)]
pub enum PlayerCommand {
    /// Open and play the file at this path.
    Play(String),
    Stop,
    Pause,
    Resume,
    /// Move the active source to this fraction of its length.
    Seek(Ratio),
    /// Set the output gain, in percent.
    SetVolume(u32),
}

/// What the worker found when it opened a file: the length in whole seconds
/// if the decoder knows it, and the tags that could be read.
#[derive(Clone, Debug)]
pub struct SourceInfo {
    pub duration: Option<u64>,
    pub title: Option<String>,
    pub artist: Option<String>,
    pub album: Option<String>,
}

/// An operation on the audio output, performed by the worker in order.
#[derive(Clone, Copy, PartialEq, Eq, Structural, Debug)]
pub enum SinkOp {
    /// Drop everything queued on the output.
    Halt,
    /// Queue the source just opened, starting this many seconds in.
    Append(u64),
    /// Let the output run.
    Resume,
    /// Suspend the output, keeping its position.
    Pause,
    /// Set the output gain, in percent.
    SetVolume(u32),
    /// Watch the output and report when it runs dry, tagged with this
    /// session number.
    WatchEnd(u64),
}

/// The engine's own playback state.
#[derive(Clone, Copy, PartialEq, Eq, Structural, Debug)]
pub enum EngineMode {
    Idle,
    Playing,
    Paused,
}

/// The engine, field by field: its mode, the file being played, that file's
/// length, and the number of the current session.
pub struct EngineModel {
    pub mode: EngineMode,
    pub source: Option<Seq<char>>,
    pub duration: u64,
    pub session: u64,
}

/// The session number after `s`.
pub open spec fn next_session(s: u64) -> u64 {
    if s == u64::MAX { 0 } else { (s + 1) as u64 }
}

/// The placeholder for a tag that could not be read.
pub open spec fn tag_or_unknown(tag: Option<String>, unknown: Seq<char>) -> Seq<char> {
    match tag {
        Some(t) => t@,
        None => unknown,
    }
}

/// The engine after `cmd`, where `opened` tells whether the file the
/// command needed could be opened and decoded.
pub open spec fn engine_after(m: EngineModel, cmd: PlayerCommand, opened: Option<SourceInfo>) -> EngineModel {
    match cmd {
        PlayerCommand::Play(path) => match opened {
            Some(info) => EngineModel {
                mode: EngineMode::Playing,
                source: Some(path@),
                duration: match info.duration {
                    Some(d) => d,
                    None => 0,
                },
                session: next_session(m.session),
            },
            None => m,
        },
        PlayerCommand::Stop => EngineModel {
            mode: EngineMode::Idle,
            source: None,
            duration: m.duration,
            session: next_session(m.session),
        },
        PlayerCommand::Pause => if m.mode == EngineMode::Playing {
            EngineModel { mode: EngineMode::Paused, ..m }
        } else {
            m
        },
        PlayerCommand::Resume => if m.mode == EngineMode::Paused {
            EngineModel { mode: EngineMode::Playing, ..m }
        } else {
            m
        },
        PlayerCommand::Seek(_) => if m.source is Some && opened is Some {
            EngineModel { session: next_session(m.session), ..m }
        } else {
            m
        },
        PlayerCommand::SetVolume(_) => m,
    }
}

/// The output operations that carry out `cmd` on an engine in state `m`.
pub open spec fn sink_ops(m: EngineModel, cmd: PlayerCommand, opened: Option<SourceInfo>) -> Seq<SinkOp> {
    match cmd {
        PlayerCommand::Play(_) => match opened {
            Some(_) => seq![
                SinkOp::Halt,
                SinkOp::Append(0),
                SinkOp::Resume,
                SinkOp::WatchEnd(next_session(m.session)),
            ],
            None => Seq::empty(),
        },
        PlayerCommand::Stop => seq![SinkOp::Halt],
        PlayerCommand::Pause => if m.mode == EngineMode::Playing {
            seq![SinkOp::Pause]
        } else {
            Seq::empty()
        },
        PlayerCommand::Resume => if m.mode == EngineMode::Paused {
            seq![SinkOp::Resume]
        } else {
            Seq::empty()
        },
        PlayerCommand::Seek(r) => match opened {
            Some(info) if m.source is Some => seq![
                SinkOp::Halt,
                SinkOp::Append(
                    scaled(
                        r@,
                        match info.duration {
                            Some(d) => d as nat,
                            None => 0,
                        },
                    ) as u64,
                ),
                SinkOp::WatchEnd(next_session(m.session)),
            ],
            _ => Seq::empty(),
        },
        PlayerCommand::SetVolume(v) => seq![SinkOp::SetVolume(v)],
    }
}

/// The engine after it has applied `cmds`, each with the outcome of opening
/// its file, one at a time in order.
pub open spec fn run(m: EngineModel, cmds: Seq<(PlayerCommand, Option<SourceInfo>)>) -> EngineModel
    decreases cmds.len(),
{
    if cmds.len() == 0 {
        m
    } else {
        engine_after(run(m, cmds.drop_last()), cmds.last().0, cmds.last().1)
    }
}

/// The edges of the playback state machine: which mode `to` the command
/// `cmd` may lead to from mode `from`. A play leads to `Playing` (or, when
/// the file cannot be opened, nowhere), stop to `Idle`, pause from
/// `Playing` to `Paused`, resume from `Paused` to `Playing`; everything else
/// keeps the mode.
pub open spec fn machine_allows(from: EngineMode, cmd: PlayerCommand, to: EngineMode) -> bool {
    match cmd {
        PlayerCommand::Play(_) => to == EngineMode::Playing || to == from,
        PlayerCommand::Stop => to == EngineMode::Idle,
        PlayerCommand::Pause => if from == EngineMode::Playing {
            to == EngineMode::Paused
        } else {
            to == from
        },
        PlayerCommand::Resume => if from == EngineMode::Paused {
            to == EngineMode::Playing
        } else {
            to == from
        },
        _ => to == from,
    }
}

/// The engine has a source exactly when it is not idle.
pub open spec fn consistent(m: EngineModel) -> bool {
    (m.mode == EngineMode::Idle) == (m.source is None)
}

/// One command moves the engine along an edge of the state machine and
/// keeps it consistent.
proof fn lemma_step_follows_state_machine(m: EngineModel, cmd: PlayerCommand, opened: Option<SourceInfo>)
    ensures
        machine_allows(m.mode, cmd, engine_after(m, cmd, opened).mode),
        consistent(m) ==> consistent(engine_after(m, cmd, opened)),
{
}

/// Commands reach the single worker through one queue and are applied one
/// at a time in arrival order, however the submitting threads interleave.
/// Over any such sequence every change of mode is an edge of the state
/// machine, and an engine that starts with a source exactly when it is not
/// idle keeps that property.
pub proof fn lemma_runs_follow_state_machine(m: EngineModel, cmds: Seq<(PlayerCommand, Option<SourceInfo>)>)
    ensures
        forall|i: int|
            0 <= i < cmds.len() ==> machine_allows(
                #[trigger] run(m, cmds.subrange(0, i)).mode,
                cmds[i].0,
                run(m, cmds.subrange(0, i + 1)).mode,
            ),
        consistent(m) ==> consistent(run(m, cmds)),
    decreases cmds.len(),
{
    assert forall|i: int| 0 <= i < cmds.len() implies machine_allows(
        #[trigger] run(m, cmds.subrange(0, i)).mode,
        cmds[i].0,
        run(m, cmds.subrange(0, i + 1)).mode,
    ) by {
        let before = cmds.subrange(0, i);
        let after = cmds.subrange(0, i + 1);
        assert(after.drop_last() == before);
        assert(after.last() == cmds[i]);
        lemma_step_follows_state_machine(run(m, before), cmds[i].0, cmds[i].1);
    }
    if cmds.len() > 0 {
        lemma_runs_follow_state_machine(m, cmds.drop_last());
        lemma_step_follows_state_machine(run(m, cmds.drop_last()), cmds.last().0, cmds.last().1);
    }
}

/// The track that a successful `Play` publishes: the tags read, "Unknown"
/// for each missing one, the decoder's length (0 when it does not know it),
/// and nothing played yet.
pub open spec fn published_track(t: CurrentTrackInfo, info: SourceInfo) -> bool {
    &&& t.title@ == tag_or_unknown(info.title, "Unknown"@)
    &&& t.artist@ == tag_or_unknown(info.artist, "Unknown"@)
    &&& t.album@ == tag_or_unknown(info.album, "Unknown"@)
    &&& t.duration == match info.duration {
        Some(d) => d,
        None => 0,
    }
    &&& t.played_duration == 0
}

/// A tag's text, or "Unknown" when it is missing.
fn tag_text(tag: Option<String>) -> (r: String)
    ensures
        r@ == tag_or_unknown(tag, "Unknown"@),
{
    match tag {
        Some(t) => t,
        None => String::from_str("Unknown"),
    }
}

/// The track description built from an opened file's tags and length.
pub fn track_info(info: SourceInfo) -> (r: CurrentTrackInfo)
    ensures
        published_track(r, info),
{
    let duration = match info.duration {
        Some(d) => d,
        None => 0,
    };
    CurrentTrackInfo::new(tag_text(info.title), tag_text(info.artist), tag_text(info.album), duration, 0)
}

/// The playback worker's decisions. It owns no audio resource: each step
/// says which output operations to perform, in order.
pub struct AudioEngine {
    mode: EngineMode,
    source: Option<String>,
    duration: u64,
    session: u64,
}

impl View for AudioEngine {
    type V = EngineModel;

    closed spec fn view(&self) -> EngineModel {
        EngineModel {
            mode: self.mode,
            source: match self.source {
                Some(p) => Some(p@),
                None => None,
            },
            duration: self.duration,
            session: self.session,
        }
    }
}

fn bump(s: u64) -> (r: u64)
    ensures
        r == next_session(s),
{
    if s == u64::MAX {
        0
    } else {
        s + 1
    }
}

impl AudioEngine {
    /// An idle engine with no source.
    pub fn new() -> (r: Self)
        ensures
            r@ == (EngineModel { mode: EngineMode::Idle, source: None, duration: 0, session: 0 }),
    {
        AudioEngine { mode: EngineMode::Idle, source: None, duration: 0, session: 0 }
    }

    pub fn mode(&self) -> (r: EngineMode)
        ensures
            r == self@.mode,
    {
        self.mode
    }

    pub fn session(&self) -> (r: u64)
        ensures
            r == self@.session,
    {
        self.session
    }

    /// The file the worker must open before it hands `cmd` to [`Self::step`]:
    /// the path to play, or for a seek the file being played.
    pub fn source_to_open(&self, cmd: &PlayerCommand) -> (r: Option<String>)
        ensures
            opt_path(r) == match *cmd {
                PlayerCommand::Play(p) => Some(p@),
                PlayerCommand::Seek(_) => self@.source,
                _ => None,
            },
    {
        match cmd {
            PlayerCommand::Play(p) => Some(p.clone()),
            PlayerCommand::Seek(_) => match &self.source {
                Some(p) => Some(p.clone()),
                None => None,
            },
            _ => None,
        }
    }

    /// Carries out one command. `opened` is what the worker got when it
    /// opened the file that [`Self::source_to_open`] named (`None` if that
    /// failed or no file was needed). A successful `Play` also publishes the
    /// new track in `state`; nothing else touches `state`.
    pub fn step(&mut self, state: &mut AppState, cmd: PlayerCommand, opened: Option<SourceInfo>) -> (r: Vec<SinkOp>)
        ensures
            final(self)@ == engine_after(old(self)@, cmd, opened),
            r@ == sink_ops(old(self)@, cmd, opened),
            match (cmd, opened) {
                (PlayerCommand::Play(_), Some(info)) => {
                    &&& final(state)@.current_track matches Some(t)
                    &&& published_track(t, info)
                    &&& final(state)@ == (AppModel { current_track: final(state)@.current_track, ..old(state)@ })
                },
                _ => final(state)@ == old(state)@,
            },
    {
        let mut ops: Vec<SinkOp> = Vec::new();
        match cmd {
            PlayerCommand::Play(path) => {
                match opened {
                    Some(info) => {
                        let next = bump(self.session);
                        let duration = match info.duration {
                            Some(d) => d,
                            None => 0,
                        };
                        state.set_current_track_info(Some(track_info(info)));
                        self.mode = EngineMode::Playing;
                        self.source = Some(path);
                        self.duration = duration;
                        self.session = next;
                        ops.push(SinkOp::Halt);
                        ops.push(SinkOp::Append(0));
                        ops.push(SinkOp::Resume);
                        ops.push(SinkOp::WatchEnd(next));
                    },
                    None => {},
                }
            },
            PlayerCommand::Stop => {
                self.mode = EngineMode::Idle;
                self.source = None;
                self.session = bump(self.session);
                ops.push(SinkOp::Halt);
            },
            PlayerCommand::Pause => {
                if let EngineMode::Playing = self.mode {
                    self.mode = EngineMode::Paused;
                    ops.push(SinkOp::Pause);
                }
            },
            PlayerCommand::Resume => {
                if let EngineMode::Paused = self.mode {
                    self.mode = EngineMode::Playing;
                    ops.push(SinkOp::Resume);
                }
            },
            PlayerCommand::Seek(ratio) => {
                if self.source.is_some() {
                    match opened {
                        Some(info) => {
                            let total = match info.duration {
                                Some(d) => d,
                                None => 0,
                            };
                            let start = ratio.scale(total);
                            let next = bump(self.session);
                            self.session = next;
                            ops.push(SinkOp::Halt);
                            ops.push(SinkOp::Append(start));
                            ops.push(SinkOp::WatchEnd(next));
                        },
                        None => {},
                    }
                }
            },
            PlayerCommand::SetVolume(v) => {
                ops.push(SinkOp::SetVolume(v));
            },
        }
        proof {
            assert(ops@ =~= sink_ops(old(self)@, cmd, opened));
        }
        ops
    }

    /// The output of session `session` ran dry. If that is still the current
    /// session, playback is over: the engine goes idle and `state` shows no
    /// track and the stopped mode. A report from a superseded session changes
    /// nothing. Returns whether the report was current.
    pub fn track_ended(&mut self, state: &mut AppState, session: u64) -> (r: bool)
        ensures
            r == (session == old(self)@.session && old(self)@.mode != EngineMode::Idle),
            r ==> final(self)@ == (EngineModel { mode: EngineMode::Idle, source: None, ..old(self)@ }),
            r ==> final(state)@ == (AppModel {
                current_track: None,
                player_state: PlayerState::Stopped,
                ..old(state)@
            }),
            !r ==> final(self)@ == old(self)@ && final(state)@ == old(state)@,
    {
        if session == self.session && self.mode != EngineMode::Idle {
            self.mode = EngineMode::Idle;
            self.source = None;
            state.set_current_track_info(None);
            state.set_player_state(PlayerState::Stopped);
            true
        } else {
            false
        }
    }
}

/// The view of an optional path.
pub open spec fn opt_path(p: Option<String>) -> Option<Seq<char>> {
    match p {
        Some(s) => Some(s@),
        None => None,
    }
}

} // verus!
