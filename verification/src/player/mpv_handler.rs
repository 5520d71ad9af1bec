use vstd::prelude::*;
use rand::rngs::StdRng;
use crate::config::{RepeatConfig, ShuffleConfig};
use crate::player::commands::PlayerCommand;
use crate::player::events::{EndReason, PlayerNotice};
use crate::player::queue::{
    PlaybackQueue, QueueEntry, QueueView, flatten, is_permutation, lemma_advance_keeps_playlist,
    lemma_restart_cycle_keeps_entries, lemma_restart_cycle_replays_in_order,
    lemma_step_back_undoes_advance, spec_advance, spec_restart_cycle, spec_step_back,
};
use crate::player::repeat::{RepeatMode, repeat_successor};
use crate::player::shuffle::{ShuffleMode, shuffle_successor};
use crate::text::{ascii_lower, ascii_lower_equals};

verus! {

// ---------------------------------------------------------------------------
// Player state
// ---------------------------------------------------------------------------

/// Playback modes held by the player.
#[derive(Debug, Clone, Copy, PartialEq, Eq, Structural)]
pub struct PlayerState {
    pub repeat_mode: RepeatMode,
    pub shuffle_mode: ShuffleMode,
    pub crossfade_enabled: bool,
    pub crossfade_seconds: u8,
}

/// The crossfade length handed to the player: the configured seconds when
/// crossfade is enabled, else 0.
pub open spec fn crossfade_value(st: PlayerState) -> u8 {
    if st.crossfade_enabled {
        st.crossfade_seconds
    } else {
        0
    }
}

impl PlayerState {
    /// The crossfade length to apply in this state.
    pub fn crossfade(&self) -> (r: u8)
        ensures
            r == crossfade_value(*self),
    {
        if self.crossfade_enabled {
            self.crossfade_seconds
        } else {
            0
        }
    }
}

/// Everything the player thread decides on: the queue, the modes, the id of
/// the track it last loaded and whether it keeps running.
#[derive(Debug)]
pub struct PlayerCore {
    pub queue: PlaybackQueue,
    pub state: PlayerState,
    pub current_track_id: String,
    pub running: bool,
}

/// Mathematical model of a `PlayerCore`.
#[verifier::ext_equal]
pub struct CoreView {
    pub queue: QueueView,
    pub state: PlayerState,
    pub current_track_id: String,
    pub running: bool,
}

impl View for PlayerCore {
    type V = CoreView;

    open spec fn view(&self) -> CoreView {
        CoreView {
            queue: self.queue@,
            state: self.state,
            current_track_id: self.current_track_id,
            running: self.running,
        }
    }
}

/// What the player must do after a decision, in order.
#[derive(Debug, Clone, PartialEq, Eq)]
pub enum PlayerAction {
    /// Load this URL and start playing it at once, replacing what plays now.
    Load(String),
    /// Stop playback.
    StopPlayback,
    /// Pause (`true`) or resume (`false`).
    SetPause(bool),
    /// Set the volume, 0–100.
    SetVolume(u32),
    /// Apply this crossfade length in seconds (0 disables it).
    SetCrossfade(u8),
    /// Report this to the application.
    Emit(PlayerNotice),
}

/// How the player reports that a file stopped playing.
#[derive(Debug, Clone)]
pub enum EndFileStatus {
    Eof,
    Stop,
    Quit,
    Error,
    Redirect,
    /// The player could not play the file; carries its description of the failure.
    Failed(String),
}

/// Player events that the decisions depend on.
#[derive(Debug, Clone)]
pub enum MpvEvent {
    StartFile,
    EndFile(EndFileStatus),
    Pause,
    Unpause,
    Idle,
    Other,
}

// ---------------------------------------------------------------------------
// Configuration
// ---------------------------------------------------------------------------

/// The repeat mode named by a configuration value, ignoring ASCII case;
/// anything unknown means `Off`.
pub open spec fn spec_repeat_mode_from_config(mode: Seq<char>) -> RepeatMode {
    if ascii_lower(mode) == "one"@ {
        RepeatMode::One
    } else if ascii_lower(mode) == "all"@ {
        RepeatMode::All
    } else {
        RepeatMode::Off
    }
}

/// The shuffle mode named by a configuration value, ignoring ASCII case;
/// anything unknown means `Off`.
pub open spec fn spec_shuffle_mode_from_config(mode: Seq<char>) -> ShuffleMode {
    if ascii_lower(mode) == "random"@ {
        ShuffleMode::Random
    } else if ascii_lower(mode) == "favourites"@ {
        ShuffleMode::Favourites
    } else if ascii_lower(mode) == "discovery"@ {
        ShuffleMode::Discovery
    } else {
        ShuffleMode::Off
    }
}

pub fn repeat_mode_from_config(mode: &str) -> (r: RepeatMode)
    ensures
        r == spec_repeat_mode_from_config(mode@),
{
    if ascii_lower_equals(mode, "one") {
        RepeatMode::One
    } else if ascii_lower_equals(mode, "all") {
        RepeatMode::All
    } else {
        RepeatMode::Off
    }
}

pub fn shuffle_mode_from_config(mode: &str) -> (r: ShuffleMode)
    ensures
        r == spec_shuffle_mode_from_config(mode@),
{
    if ascii_lower_equals(mode, "random") {
        ShuffleMode::Random
    } else if ascii_lower_equals(mode, "favourites") {
        ShuffleMode::Favourites
    } else if ascii_lower_equals(mode, "discovery") {
        ShuffleMode::Discovery
    } else {
        ShuffleMode::Off
    }
}

// ---------------------------------------------------------------------------
// Decisions, stated as functions from state and input to state and actions
// ---------------------------------------------------------------------------

/// What is reported when the queue runs dry: a refill request in the
/// Favourites and Discovery shuffle modes (the latter based on the track
/// that just played), otherwise that the queue is empty.
pub open spec fn spec_refill_or_empty(state: PlayerState, track_id: String) -> PlayerNotice {
    match state.shuffle_mode {
        ShuffleMode::Favourites => PlayerNotice::QueueRefillRequested {
            mode: ShuffleMode::Favourites,
            based_on_track_id: None,
        },
        ShuffleMode::Discovery => PlayerNotice::QueueRefillRequested {
            mode: ShuffleMode::Discovery,
            based_on_track_id: Some(track_id),
        },
        _ => PlayerNotice::QueueEmpty,
    }
}

/// Load the queue's current entry, if it has one, and record its track id.
pub open spec fn spec_load_current(o: CoreView) -> (CoreView, Seq<PlayerAction>) {
    match o.queue.current {
        Some(e) => (CoreView { current_track_id: e.track_id, ..o }, seq![PlayerAction::Load(e.stream_url)]),
        None => (o, Seq::empty()),
    }
}

/// Move to the queue state `q` and load its current entry; when it has
/// none, report that the queue ran dry.
pub open spec fn spec_play_or_refill(o: CoreView, q: QueueView) -> (CoreView, Seq<PlayerAction>) {
    match q.current {
        Some(e) => (
            CoreView { queue: q, current_track_id: e.track_id, ..o },
            seq![PlayerAction::Load(e.stream_url)],
        ),
        None => (
            CoreView { queue: q, ..o },
            seq![PlayerAction::Emit(spec_refill_or_empty(o.state, o.current_track_id))],
        ),
    }
}

/// What happens when a track plays to its end, by repeat mode.
pub open spec fn spec_eof_step(o: CoreView) -> (CoreView, Seq<PlayerAction>) {
    match o.state.repeat_mode {
        RepeatMode::Off => spec_play_or_refill(o, spec_advance(o.queue)),
        RepeatMode::One => spec_load_current(o),
        RepeatMode::All => {
            let a = spec_advance(o.queue);
            if a.current is Some {
                spec_play_or_refill(o, a)
            } else {
                spec_play_or_refill(o, spec_restart_cycle(a))
            }
        },
    }
}

/// Why playback ended, from the player's report.
pub open spec fn spec_end_reason(status: EndFileStatus) -> EndReason {
    match status {
        EndFileStatus::Eof => EndReason::Eof,
        EndFileStatus::Stop => EndReason::Stopped,
        EndFileStatus::Quit => EndReason::Stopped,
        _ => EndReason::Error,
    }
}

/// The decision taken on each player event.
pub open spec fn spec_event(o: CoreView, event: MpvEvent) -> (CoreView, Seq<PlayerAction>) {
    match event {
        MpvEvent::StartFile => (
            o,
            seq![PlayerAction::Emit(PlayerNotice::TrackStarted { track_id: o.current_track_id })],
        ),
        MpvEvent::EndFile(status) => {
            let reason = spec_end_reason(status);
            let failed = match status {
                EndFileStatus::Failed(e) => seq![PlayerAction::Emit(PlayerNotice::PlaybackFailed(e))],
                _ => Seq::empty(),
            };
            let step = if reason == EndReason::Eof {
                spec_eof_step(o)
            } else {
                (o, Seq::empty())
            };
            (
                step.0,
                failed + step.1 + seq![
                    PlayerAction::Emit(
                        PlayerNotice::TrackEnded { track_id: o.current_track_id, reason },
                    ),
                ],
            )
        },
        MpvEvent::Pause => (o, seq![PlayerAction::Emit(PlayerNotice::Paused)]),
        MpvEvent::Unpause => (o, seq![PlayerAction::Emit(PlayerNotice::Resumed)]),
        MpvEvent::Idle => if o.queue.upcoming.len() == 0 && o.queue.current is None {
            (o, seq![PlayerAction::Emit(PlayerNotice::QueueEmpty)])
        } else {
            (o, Seq::empty())
        },
        MpvEvent::Other => (o, Seq::empty()),
    }
}

/// The state with a new shuffle mode, and what is reported.
pub open spec fn spec_set_shuffle(o: CoreView, m: ShuffleMode) -> (CoreView, Seq<PlayerAction>) {
    (
        CoreView { state: PlayerState { shuffle_mode: m, ..o.state }, ..o },
        seq![PlayerAction::Emit(PlayerNotice::ShuffleModeChanged(m))],
    )
}

/// The state with a new repeat mode, and what is reported.
pub open spec fn spec_set_repeat(o: CoreView, m: RepeatMode) -> (CoreView, Seq<PlayerAction>) {
    (
        CoreView { state: PlayerState { repeat_mode: m, ..o.state }, ..o },
        seq![PlayerAction::Emit(PlayerNotice::RepeatModeChanged(m))],
    )
}

/// The state with new crossfade settings, and what is applied and reported.
pub open spec fn spec_set_crossfade(o: CoreView, st: PlayerState) -> (CoreView, Seq<PlayerAction>) {
    (
        CoreView { state: st, ..o },
        seq![
            PlayerAction::SetCrossfade(crossfade_value(st)),
            PlayerAction::Emit(
                PlayerNotice::CrossfadeChanged {
                    enabled: st.crossfade_enabled,
                    seconds: st.crossfade_seconds,
                },
            ),
        ],
    )
}

/// The decision taken on each command, with the upcoming queue before any
/// reshuffle (see `reshuffles`).
pub open spec fn spec_command(o: CoreView, cmd: PlayerCommand) -> (CoreView, Seq<PlayerAction>) {
    match cmd {
        PlayerCommand::Play { url, entry } => (
            CoreView {
                queue: QueueView { current: Some(entry), ..o.queue },
                current_track_id: entry.track_id,
                ..o
            },
            seq![PlayerAction::Load(url)],
        ),
        PlayerCommand::Pause => (o, seq![PlayerAction::SetPause(true)]),
        PlayerCommand::Resume => (o, seq![PlayerAction::SetPause(false)]),
        PlayerCommand::SetVolume(v) => (
            o,
            seq![PlayerAction::SetVolume(if v < 100 { v } else { 100 })],
        ),
        PlayerCommand::Next => {
            let a = spec_advance(o.queue);
            match a.current {
                Some(e) => (
                    CoreView { queue: a, current_track_id: e.track_id, ..o },
                    seq![PlayerAction::Load(e.stream_url)],
                ),
                None => (
                    CoreView { queue: a, ..o },
                    seq![
                        PlayerAction::StopPlayback,
                        PlayerAction::Emit(spec_refill_or_empty(o.state, o.current_track_id)),
                    ],
                ),
            }
        },
        PlayerCommand::Prev => {
            let b = spec_step_back(o.queue);
            match b.current {
                Some(e) => (
                    CoreView { queue: b, current_track_id: e.track_id, ..o },
                    seq![PlayerAction::Load(e.stream_url)],
                ),
                None => (CoreView { queue: b, ..o }, Seq::empty()),
            }
        },
        PlayerCommand::Stop => (o, seq![PlayerAction::StopPlayback]),
        PlayerCommand::Enqueue(entry) => (
            CoreView { queue: QueueView { upcoming: o.queue.upcoming.push(entry), ..o.queue }, ..o },
            Seq::empty(),
        ),
        PlayerCommand::ClearQueue => (
            CoreView { queue: QueueView { upcoming: Seq::empty(), ..o.queue }, ..o },
            Seq::empty(),
        ),
        PlayerCommand::SetRepeatMode(m) => spec_set_repeat(o, m),
        PlayerCommand::ToggleRepeatMode => spec_set_repeat(o, repeat_successor(o.state.repeat_mode)),
        PlayerCommand::SetShuffleMode(m) => spec_set_shuffle(o, m),
        PlayerCommand::ToggleShuffleMode => spec_set_shuffle(
            o,
            shuffle_successor(o.state.shuffle_mode),
        ),
        PlayerCommand::SetCrossfadeEnabled(en) => spec_set_crossfade(
            o,
            PlayerState { crossfade_enabled: en, ..o.state },
        ),
        PlayerCommand::SetCrossfadeSeconds(s) => spec_set_crossfade(
            o,
            PlayerState { crossfade_seconds: s, ..o.state },
        ),
        PlayerCommand::Shutdown => (CoreView { running: false, ..o }, Seq::empty()),
    }
}

/// Whether a command leaves the player in Random shuffle mode with the
/// upcoming queue reshuffled.
pub open spec fn reshuffles(st: PlayerState, cmd: PlayerCommand) -> bool {
    match cmd {
        PlayerCommand::Enqueue(_) => st.shuffle_mode == ShuffleMode::Random,
        PlayerCommand::SetShuffleMode(m) => m == ShuffleMode::Random,
        PlayerCommand::ToggleShuffleMode => shuffle_successor(st.shuffle_mode) == ShuffleMode::Random,
        _ => false,
    }
}

/// `n` is the expected state `e`, except that the upcoming queue may be in
/// another order when `shuffled` holds.
pub open spec fn agrees_up_to_shuffle(n: CoreView, e: CoreView, shuffled: bool) -> bool {
    &&& n.state == e.state
    &&& n.current_track_id == e.current_track_id
    &&& n.running == e.running
    &&& n.queue.current == e.queue.current
    &&& n.queue.history == e.queue.history
    &&& if shuffled {
        n.queue.upcoming.len() == e.queue.upcoming.len() && is_permutation(
            n.queue.upcoming,
            e.queue.upcoming,
        )
    } else {
        n.queue.upcoming == e.queue.upcoming
    }
}

/// What is reported when the queue runs dry.
pub fn emit_refill_or_empty(state: &PlayerState, current_track_id: &String) -> (n: PlayerNotice)
    ensures
        n == spec_refill_or_empty(*state, *current_track_id),
{
    match state.shuffle_mode {
        ShuffleMode::Favourites => PlayerNotice::QueueRefillRequested {
            mode: ShuffleMode::Favourites,
            based_on_track_id: None,
        },
        ShuffleMode::Discovery => PlayerNotice::QueueRefillRequested {
            mode: ShuffleMode::Discovery,
            based_on_track_id: Some(current_track_id.clone()),
        },
        _ => PlayerNotice::QueueEmpty,
    }
}

/// Why playback ended, from the player's report.
pub fn end_reason(status: &EndFileStatus) -> (r: EndReason)
    ensures
        r == spec_end_reason(*status),
{
    match status {
        EndFileStatus::Eof => EndReason::Eof,
        EndFileStatus::Stop => EndReason::Stopped,
        EndFileStatus::Quit => EndReason::Stopped,
        _ => EndReason::Error,
    }
}

/// The URL of the queue's current entry, if any; its track id becomes the
/// current track id.
pub fn load_current_entry(queue: &PlaybackQueue, current_track_id: &mut String) -> (url: Option<
    String,
>)
    ensures
        match queue@.current {
            Some(e) => *final(current_track_id) == e.track_id && url == Some(e.stream_url),
            None => *final(current_track_id) == *old(current_track_id) && url is None,
        },
{
    if let Some(current) = queue.current.as_ref() {
        *current_track_id = current.track_id.clone();
        Some(current.stream_url.clone())
    } else {
        None
    }
}

impl PlayerCore {
    /// A stopped player with an empty queue and the configured modes.
    pub fn new(
        repeat: &RepeatConfig,
        shuffle: &ShuffleConfig,
        crossfade_enabled: bool,
        crossfade_seconds: u8,
    ) -> (core: Self)
        ensures
            core@.queue.current is None,
            core@.queue.upcoming.len() == 0,
            core@.queue.history.len() == 0,
            core@.current_track_id@ == Seq::<char>::empty(),
            core@.running,
            core@.state == (PlayerState {
                repeat_mode: spec_repeat_mode_from_config(repeat.mode@),
                shuffle_mode: spec_shuffle_mode_from_config(shuffle.mode@),
                crossfade_enabled,
                crossfade_seconds,
            }),
    {
        PlayerCore {
            queue: PlaybackQueue::new(),
            state: PlayerState {
                repeat_mode: repeat_mode_from_config(repeat.mode.as_str()),
                shuffle_mode: shuffle_mode_from_config(shuffle.mode.as_str()),
                crossfade_enabled,
                crossfade_seconds,
            },
            current_track_id: String::new(),
            running: true,
        }
    }

    /// Load the queue's current entry, or report that the queue ran dry.
    fn play_or_refill(&mut self) -> (acts: Vec<PlayerAction>)
        ensures
            (final(self)@, acts@) == spec_play_or_refill(old(self)@, old(self)@.queue),
    {
        let ghost o = self@;
        let mut acts: Vec<PlayerAction> = Vec::new();
        match load_current_entry(&self.queue, &mut self.current_track_id) {
            Some(url) => {
                acts.push(PlayerAction::Load(url));
            },
            None => {
                let notice = emit_refill_or_empty(&self.state, &self.current_track_id);
                acts.push(PlayerAction::Emit(notice));
            },
        }
        assert(acts@ =~= spec_play_or_refill(o, o.queue).1);
        acts
    }

    /// Decide what to do once the current track played to its end.
    fn end_of_file(&mut self) -> (acts: Vec<PlayerAction>)
        ensures
            (final(self)@, acts@) == spec_eof_step(old(self)@),
    {
        match self.state.repeat_mode {
            RepeatMode::Off => {
                self.queue.advance();
                self.play_or_refill()
            },
            RepeatMode::One => {
                let ghost o = self@;
                let mut acts: Vec<PlayerAction> = Vec::new();
                if let Some(url) = load_current_entry(&self.queue, &mut self.current_track_id) {
                    acts.push(PlayerAction::Load(url));
                }
                assert(acts@ =~= spec_load_current(o).1);
                acts
            },
            RepeatMode::All => {
                let advanced = self.queue.advance().is_some();
                if !advanced {
                    self.queue.restart_cycle();
                }
                self.play_or_refill()
            },
        }
    }

    /// Decide what to do on a player event, and update the state accordingly.
    pub fn handle_mpv_event(&mut self, event: MpvEvent) -> (acts: Vec<PlayerAction>)
        ensures
            (final(self)@, acts@) == spec_event(old(self)@, event),
    {
        let ghost o = self@;
        let mut acts: Vec<PlayerAction> = Vec::new();
        match event {
            MpvEvent::StartFile => {
                acts.push(
                    PlayerAction::Emit(
                        PlayerNotice::TrackStarted { track_id: self.current_track_id.clone() },
                    ),
                );
            },
            MpvEvent::EndFile(status) => {
                let reason = end_reason(&status);
                let track_id = self.current_track_id.clone();
                if let EndFileStatus::Failed(error) = status {
                    acts.push(PlayerAction::Emit(PlayerNotice::PlaybackFailed(error)));
                }
                let ghost failed = acts@;
                if reason == EndReason::Eof {
                    let mut step = self.end_of_file();
                    acts.append(&mut step);
                }
                acts.push(PlayerAction::Emit(PlayerNotice::TrackEnded { track_id, reason }));
                proof {
                    let step = if reason == EndReason::Eof {
                        spec_eof_step(o)
                    } else {
                        (o, Seq::empty())
                    };
                    assert(acts@ =~= failed + step.1 + seq![
                        PlayerAction::Emit(
                            PlayerNotice::TrackEnded { track_id: o.current_track_id, reason },
                        ),
                    ]);
                }
            },
            MpvEvent::Pause => {
                acts.push(PlayerAction::Emit(PlayerNotice::Paused));
            },
            MpvEvent::Unpause => {
                acts.push(PlayerAction::Emit(PlayerNotice::Resumed));
            },
            MpvEvent::Idle => {
                if self.queue.upcoming.len() == 0 && self.queue.current.is_none() {
                    acts.push(PlayerAction::Emit(PlayerNotice::QueueEmpty));
                }
            },
            MpvEvent::Other => {},
        }
        assert(acts@ =~= spec_event(o, event).1);
        acts
    }

    /// Decide what to do on a command, and update the state accordingly.
    /// In Random shuffle mode, enqueueing or (re)entering the mode reshuffles
    /// the upcoming queue with `rng`.
    pub fn handle_command(&mut self, cmd: PlayerCommand, rng: &mut StdRng) -> (acts: Vec<
        PlayerAction,
    >)
        ensures
            acts@ == spec_command(old(self)@, cmd).1,
            agrees_up_to_shuffle(
                final(self)@,
                spec_command(old(self)@, cmd).0,
                reshuffles(old(self)@.state, cmd),
            ),
            reshuffles(old(self)@.state, cmd) && spec_command(old(self)@, cmd).0.queue.upcoming.len()
                >= 2 ==> *final(rng) != *old(rng),
    {
        let ghost o = self@;
        let mut acts: Vec<PlayerAction> = Vec::new();
        match cmd {
            PlayerCommand::Play { url, entry } => {
                self.current_track_id = entry.track_id.clone();
                self.queue.current = Some(entry);
                acts.push(PlayerAction::Load(url));
            },
            PlayerCommand::Pause => {
                acts.push(PlayerAction::SetPause(true));
            },
            PlayerCommand::Resume => {
                acts.push(PlayerAction::SetPause(false));
            },
            PlayerCommand::SetVolume(vol) => {
                let v = if vol < 100 {
                    vol
                } else {
                    100
                };
                acts.push(PlayerAction::SetVolume(v));
            },
            PlayerCommand::Next => {
                let next = match self.queue.advance() {
                    Some(next) => Some((next.stream_url.clone(), next.track_id.clone())),
                    None => None,
                };
                match next {
                    Some((url, track_id)) => {
                        self.current_track_id = track_id;
                        acts.push(PlayerAction::Load(url));
                    },
                    None => {
                        acts.push(PlayerAction::StopPlayback);
                        let notice = emit_refill_or_empty(&self.state, &self.current_track_id);
                        acts.push(PlayerAction::Emit(notice));
                    },
                }
            },
            PlayerCommand::Prev => {
                let prev = match self.queue.step_back() {
                    Some(prev) => Some((prev.stream_url.clone(), prev.track_id.clone())),
                    None => None,
                };
                if let Some((url, track_id)) = prev {
                    self.current_track_id = track_id;
                    acts.push(PlayerAction::Load(url));
                }
            },
            PlayerCommand::Stop => {
                acts.push(PlayerAction::StopPlayback);
            },
            PlayerCommand::Enqueue(entry) => {
                self.queue.upcoming.push_back(entry);
                if self.state.shuffle_mode == ShuffleMode::Random {
                    self.queue.shuffle_upcoming(rng);
                }
            },
            PlayerCommand::ClearQueue => {
                self.queue.upcoming.clear();
            },
            PlayerCommand::SetRepeatMode(mode) => {
                self.state.repeat_mode = mode;
                acts.push(PlayerAction::Emit(PlayerNotice::RepeatModeChanged(self.state.repeat_mode)));
            },
            PlayerCommand::ToggleRepeatMode => {
                self.state.repeat_mode = self.state.repeat_mode.next();
                acts.push(PlayerAction::Emit(PlayerNotice::RepeatModeChanged(self.state.repeat_mode)));
            },
            PlayerCommand::SetShuffleMode(mode) => {
                self.state.shuffle_mode = mode;
                if self.state.shuffle_mode == ShuffleMode::Random {
                    self.queue.shuffle_upcoming(rng);
                }
                acts.push(
                    PlayerAction::Emit(PlayerNotice::ShuffleModeChanged(self.state.shuffle_mode)),
                );
            },
            PlayerCommand::ToggleShuffleMode => {
                self.state.shuffle_mode = self.state.shuffle_mode.next();
                if self.state.shuffle_mode == ShuffleMode::Random {
                    self.queue.shuffle_upcoming(rng);
                }
                acts.push(
                    PlayerAction::Emit(PlayerNotice::ShuffleModeChanged(self.state.shuffle_mode)),
                );
            },
            PlayerCommand::SetCrossfadeEnabled(enabled) => {
                self.state.crossfade_enabled = enabled;
                acts.push(PlayerAction::SetCrossfade(self.state.crossfade()));
                acts.push(
                    PlayerAction::Emit(
                        PlayerNotice::CrossfadeChanged {
                            enabled: self.state.crossfade_enabled,
                            seconds: self.state.crossfade_seconds,
                        },
                    ),
                );
            },
            PlayerCommand::SetCrossfadeSeconds(seconds) => {
                self.state.crossfade_seconds = seconds;
                acts.push(PlayerAction::SetCrossfade(self.state.crossfade()));
                acts.push(
                    PlayerAction::Emit(
                        PlayerNotice::CrossfadeChanged {
                            enabled: self.state.crossfade_enabled,
                            seconds: self.state.crossfade_seconds,
                        },
                    ),
                );
            },
            PlayerCommand::Shutdown => {
                self.running = false;
            },
        }
        proof {
            assert(acts@ =~= spec_command(o, cmd).1);
            let e = spec_command(o, cmd).0;
            if !reshuffles(o.state, cmd) {
                assert(self@.queue.upcoming =~= e.queue.upcoming);
            }
        }
        acts
    }
}

// ---------------------------------------------------------------------------
// Laws of the player's decisions
// ---------------------------------------------------------------------------

/// Every load in `acts` plays the current entry of `n` (its stream URL), and
/// the current track id of `n` is that entry's.
pub open spec fn loads_current_entry(n: CoreView, acts: Seq<PlayerAction>) -> bool {
    forall|i: int|
        0 <= i < acts.len() && #[trigger] acts[i] is Load ==> {
            &&& n.queue.current is Some
            &&& n.queue.current.unwrap().stream_url == acts[i]->Load_0
            &&& n.current_track_id == n.queue.current.unwrap().track_id
        }
}

/// Whatever the player reports, every file it loads on its own is the
/// queue's current entry, and the track id it reports from then on is that
/// entry's.
pub proof fn lemma_event_loads_current_entry(o: CoreView, event: MpvEvent)
    ensures
        loads_current_entry(spec_event(o, event).0, spec_event(o, event).1),
{
    let r = spec_event(o, event);
    if let MpvEvent::EndFile(status) = event {
        let reason = spec_end_reason(status);
        let failed: Seq<PlayerAction> = match status {
            EndFileStatus::Failed(e) => seq![PlayerAction::Emit(PlayerNotice::PlaybackFailed(e))],
            _ => Seq::empty(),
        };
        let step = if reason == EndReason::Eof {
            spec_eof_step(o)
        } else {
            (o, Seq::<PlayerAction>::empty())
        };
        let last = seq![
            PlayerAction::Emit(PlayerNotice::TrackEnded { track_id: o.current_track_id, reason }),
        ];
        assert(r.1 == failed + step.1 + last);
        assert forall|i: int| 0 <= i < r.1.len() && #[trigger] r.1[i] is Load implies {
            &&& r.0.queue.current is Some
            &&& r.0.queue.current.unwrap().stream_url == r.1[i]->Load_0
            &&& r.0.current_track_id == r.0.queue.current.unwrap().track_id
        } by {
            assert(i >= failed.len());
            assert(i < failed.len() + step.1.len());
            assert(r.1[i] == step.1[i - failed.len()]);
        }
    }
}

/// On every command but `Play` (which loads the URL it is given), every
/// file the player loads is the queue's new current entry, and the
/// reported track id is that entry's.
pub proof fn lemma_command_loads_current_entry(o: CoreView, cmd: PlayerCommand)
    requires
        !(cmd is Play),
    ensures
        loads_current_entry(spec_command(o, cmd).0, spec_command(o, cmd).1),
{
}

/// Handling the end of a track never loses or duplicates a queue entry:
/// the whole playlist (history, current, upcoming) holds the same entries
/// afterwards, each as often.
pub proof fn lemma_end_of_track_keeps_entries(o: CoreView, status: EndFileStatus)
    ensures
        is_permutation(
            flatten(spec_event(o, MpvEvent::EndFile(status)).0.queue),
            flatten(o.queue),
        ),
{
    lemma_advance_keeps_playlist(o.queue);
    let a = spec_advance(o.queue);
    lemma_restart_cycle_keeps_entries(a);
}

/// With `RepeatMode::One`, a track that plays to its end is played again:
/// the queue is untouched and the current entry is loaded once more.
pub proof fn lemma_repeat_one_replays(o: CoreView)
    requires
        o.state.repeat_mode == RepeatMode::One,
        o.queue.current is Some,
    ensures
        spec_event(o, MpvEvent::EndFile(EndFileStatus::Eof)).0.queue == o.queue,
        spec_event(o, MpvEvent::EndFile(EndFileStatus::Eof)).1[0] == PlayerAction::Load(
            o.queue.current.unwrap().stream_url,
        ),
{
}

/// Every report that a file ended is followed, last of all, by the notice
/// `TrackEnded` for the track that was current until then.
pub proof fn lemma_end_file_reports_track_ended(o: CoreView, status: EndFileStatus)
    ensures
        ({
            let acts = spec_event(o, MpvEvent::EndFile(status)).1;
            &&& acts.len() > 0
            &&& acts.last() == PlayerAction::Emit(
                PlayerNotice::TrackEnded {
                    track_id: o.current_track_id,
                    reason: spec_end_reason(status),
                },
            )
        }),
{
}

/// `Prev` right after `Next` goes back to the track that was playing: the
/// player's state is restored and that track is loaded again.
pub proof fn lemma_prev_undoes_next(o: CoreView)
    requires
        o.queue.current is Some,
        o.queue.upcoming.len() > 0,
        o.current_track_id == o.queue.current.unwrap().track_id,
    ensures
        spec_command(spec_command(o, PlayerCommand::Next).0, PlayerCommand::Prev).0 == o,
        spec_command(spec_command(o, PlayerCommand::Next).0, PlayerCommand::Prev).1 == seq![
            PlayerAction::Load(o.queue.current.unwrap().stream_url),
        ],
{
    lemma_step_back_undoes_advance(o.queue);
    let a = spec_command(o, PlayerCommand::Next).0;
    assert(a.queue == spec_advance(o.queue));
    let b = spec_command(a, PlayerCommand::Prev).0;
    assert(b.queue == o.queue);
    assert(b =~= o);
}

/// With `RepeatMode::All`, when the last track of the queue plays to its
/// end, the whole playlist starts over in the same order from its first
/// track, which is loaded.
pub proof fn lemma_repeat_all_restarts_playlist(o: CoreView)
    requires
        o.state.repeat_mode == RepeatMode::All,
        o.queue.current is Some,
        o.queue.upcoming.len() == 0,
    ensures
        ({
            let (n, acts) = spec_event(o, MpvEvent::EndFile(EndFileStatus::Eof));
            &&& flatten(n.queue) == flatten(o.queue)
            &&& n.queue.history.len() == 0
            &&& n.queue.current == Some(flatten(o.queue)[0])
            &&& n.current_track_id == flatten(o.queue)[0].track_id
            &&& acts[0] == PlayerAction::Load(flatten(o.queue)[0].stream_url)
        }),
{
    let a = spec_advance(o.queue);
    lemma_advance_keeps_playlist(o.queue);
    assert(a.current is None);
    assert(a.upcoming.len() == 0);
    lemma_restart_cycle_replays_in_order(a);
}

/// Enqueueing plays nothing and adds the entry behind the upcoming ones.
/// Outside Random shuffle mode the upcoming queue becomes the old one with
/// the entry appended at its end, the old entries in their order; in Random
/// mode it holds those same entries, each as often, in some order. Current
/// track, history and settings stay. `n` is any state that `handle_command`
/// may leave.
pub proof fn lemma_enqueue_appends(o: CoreView, e: QueueEntry, n: CoreView)
    requires
        agrees_up_to_shuffle(
            n,
            spec_command(o, PlayerCommand::Enqueue(e)).0,
            reshuffles(o.state, PlayerCommand::Enqueue(e)),
        ),
    ensures
        spec_command(o, PlayerCommand::Enqueue(e)).1.len() == 0,
        o.state.shuffle_mode != ShuffleMode::Random ==> n.queue.upcoming == o.queue.upcoming.push(e),
        o.state.shuffle_mode != ShuffleMode::Random ==> n.queue.upcoming.last() == e
            && n.queue.upcoming.drop_last() == o.queue.upcoming,
        o.state.shuffle_mode == ShuffleMode::Random ==> is_permutation(
            n.queue.upcoming,
            o.queue.upcoming.push(e),
        ),
        n.queue.upcoming.len() == o.queue.upcoming.len() + 1,
        n.queue.current == o.queue.current,
        n.queue.history == o.queue.history,
        n.state == o.state,
        n.current_track_id == o.current_track_id,
{
    if o.state.shuffle_mode != ShuffleMode::Random {
        assert(n.queue.upcoming.drop_last() =~= o.queue.upcoming);
    }
}

/// How the player's report of a finished file is classified: the end of
/// the file is `Eof`, a stop or quit is `Stopped`, and every other report
/// (an error, a redirect, a failure to play) is `Error`; that reason is the
/// one given in the final `TrackEnded` notice for the track that was
/// current.
pub proof fn lemma_end_reason_classifies(o: CoreView, status: EndFileStatus)
    ensures
        (spec_end_reason(status) == EndReason::Eof) <==> status is Eof,
        (spec_end_reason(status) == EndReason::Stopped) <==> (status is Stop || status is Quit),
        (spec_end_reason(status) == EndReason::Error) <==> (status is Error || status is Redirect
            || status is Failed),
        spec_event(o, MpvEvent::EndFile(status)).1.last() == PlayerAction::Emit(
            PlayerNotice::TrackEnded {
                track_id: o.current_track_id,
                reason: if status is Eof {
                    EndReason::Eof
                } else if status is Stop || status is Quit {
                    EndReason::Stopped
                } else {
                    EndReason::Error
                },
            },
        ),
{
    lemma_end_file_reports_track_ended(o, status);
}

} // verus!
