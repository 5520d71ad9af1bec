use rand::rngs::StdRng;
use rand::SeedableRng;
use tidal_tui::config::{RepeatConfig, ShuffleConfig};
use tidal_tui::player::commands::PlayerCommand;
use tidal_tui::player::events::{EndReason, PlayerNotice};
use tidal_tui::player::mpv_handler::{
    emit_refill_or_empty, end_reason, EndFileStatus, MpvEvent, PlayerAction, PlayerCore, PlayerState,
};
use tidal_tui::player::queue::QueueEntry;
use tidal_tui::player::repeat::RepeatMode;
use tidal_tui::player::shuffle::ShuffleMode;

fn entry(id: &str) -> QueueEntry {
    QueueEntry {
        track_id: id.into(),
        title: id.into(),
        artist: String::new(),
        album: String::new(),
        duration: 0,
        stream_url: format!("url-{id}"),
    }
}

fn new_core(repeat: &str, shuffle: &str) -> PlayerCore {
    PlayerCore::new(
        &RepeatConfig { mode: repeat.into() },
        &ShuffleConfig { mode: shuffle.into() },
        false,
        5,
    )
}

fn cmd(c: &mut PlayerCore, command: PlayerCommand) -> Vec<PlayerAction> {
    c.handle_command(command, &mut StdRng::from_entropy())
}

fn load(id: &str) -> PlayerAction {
    PlayerAction::Load(format!("url-{id}"))
}

fn ended(id: &str, reason: EndReason) -> PlayerAction {
    PlayerAction::Emit(PlayerNotice::TrackEnded { track_id: id.into(), reason })
}

#[test]
fn new_core_reads_config() {
    let c = new_core("ALL", "discovery");
    assert_eq!(c.state.repeat_mode, RepeatMode::All);
    assert_eq!(c.state.shuffle_mode, ShuffleMode::Discovery);
    assert!(c.running);
    assert!(c.current_track_id.is_empty());
    assert_eq!(c.state.crossfade(), 0);
}

#[test]
fn play_then_next_and_prev() {
    let mut c = new_core("off", "off");
    assert_eq!(
        cmd(&mut c, PlayerCommand::Play { url: "direct".into(), entry: entry("a") }),
        vec![PlayerAction::Load("direct".into())]
    );
    assert_eq!(c.current_track_id, "a");
    cmd(&mut c, PlayerCommand::Enqueue(entry("b")));
    assert_eq!(cmd(&mut c, PlayerCommand::Next), vec![load("b")]);
    assert_eq!(c.current_track_id, "b");
    assert_eq!(cmd(&mut c, PlayerCommand::Prev), vec![load("a")]);
    assert_eq!(c.current_track_id, "a");
    assert_eq!(c.queue.upcoming[0].track_id, "b");
}

#[test]
fn next_on_exhausted_queue_stops_and_reports() {
    let mut c = new_core("off", "off");
    cmd(&mut c, PlayerCommand::Play { url: "u".into(), entry: entry("a") });
    assert_eq!(
        cmd(&mut c, PlayerCommand::Next),
        vec![PlayerAction::StopPlayback, PlayerAction::Emit(PlayerNotice::QueueEmpty)]
    );
    let mut d = new_core("off", "discovery");
    cmd(&mut d, PlayerCommand::Play { url: "u".into(), entry: entry("a") });
    assert_eq!(
        cmd(&mut d, PlayerCommand::Next),
        vec![
            PlayerAction::StopPlayback,
            PlayerAction::Emit(PlayerNotice::QueueRefillRequested {
                mode: ShuffleMode::Discovery,
                based_on_track_id: Some("a".into()),
            }),
        ]
    );
}

#[test]
fn simple_commands() {
    let mut c = new_core("off", "off");
    assert_eq!(cmd(&mut c, PlayerCommand::SetVolume(250)), vec![PlayerAction::SetVolume(100)]);
    assert_eq!(cmd(&mut c, PlayerCommand::SetVolume(40)), vec![PlayerAction::SetVolume(40)]);
    assert_eq!(cmd(&mut c, PlayerCommand::Pause), vec![PlayerAction::SetPause(true)]);
    assert_eq!(cmd(&mut c, PlayerCommand::Resume), vec![PlayerAction::SetPause(false)]);
    assert_eq!(cmd(&mut c, PlayerCommand::Stop), vec![PlayerAction::StopPlayback]);
    assert_eq!(
        cmd(&mut c, PlayerCommand::ToggleRepeatMode),
        vec![PlayerAction::Emit(PlayerNotice::RepeatModeChanged(RepeatMode::One))]
    );
    assert_eq!(
        cmd(&mut c, PlayerCommand::SetShuffleMode(ShuffleMode::Favourites)),
        vec![PlayerAction::Emit(PlayerNotice::ShuffleModeChanged(ShuffleMode::Favourites))]
    );
    assert_eq!(
        cmd(&mut c, PlayerCommand::SetCrossfadeSeconds(8)),
        vec![
            PlayerAction::SetCrossfade(0),
            PlayerAction::Emit(PlayerNotice::CrossfadeChanged { enabled: false, seconds: 8 }),
        ]
    );
    assert_eq!(
        cmd(&mut c, PlayerCommand::SetCrossfadeEnabled(true)),
        vec![
            PlayerAction::SetCrossfade(8),
            PlayerAction::Emit(PlayerNotice::CrossfadeChanged { enabled: true, seconds: 8 }),
        ]
    );
    cmd(&mut c, PlayerCommand::Enqueue(entry("x")));
    assert_eq!(cmd(&mut c, PlayerCommand::ClearQueue), vec![]);
    assert!(c.queue.upcoming.is_empty());
    assert!(cmd(&mut c, PlayerCommand::Shutdown).is_empty());
    assert!(!c.running);
}

#[test]
fn random_mode_keeps_enqueued_entries() {
    let mut c = new_core("off", "random");
    for id in ["a", "b", "c", "d"] {
        cmd(&mut c, PlayerCommand::Enqueue(entry(id)));
    }
    let mut ids: Vec<String> = c.queue.upcoming.iter().map(|e| e.track_id.clone()).collect();
    ids.sort();
    assert_eq!(ids, vec!["a", "b", "c", "d"]);
}

#[test]
fn end_of_file_advances_with_repeat_off() {
    let mut c = new_core("off", "off");
    cmd(&mut c, PlayerCommand::Play { url: "u".into(), entry: entry("a") });
    cmd(&mut c, PlayerCommand::Enqueue(entry("b")));
    let acts = c.handle_mpv_event(MpvEvent::EndFile(EndFileStatus::Eof));
    assert_eq!(acts, vec![load("b"), ended("a", EndReason::Eof)]);
    assert_eq!(c.current_track_id, "b");
    let acts = c.handle_mpv_event(MpvEvent::EndFile(EndFileStatus::Eof));
    assert_eq!(
        acts,
        vec![PlayerAction::Emit(PlayerNotice::QueueEmpty), ended("b", EndReason::Eof)]
    );
}

#[test]
fn end_of_file_repeats_one() {
    let mut c = new_core("one", "off");
    cmd(&mut c, PlayerCommand::Play { url: "u".into(), entry: entry("a") });
    cmd(&mut c, PlayerCommand::Enqueue(entry("b")));
    let acts = c.handle_mpv_event(MpvEvent::EndFile(EndFileStatus::Eof));
    assert_eq!(acts, vec![load("a"), ended("a", EndReason::Eof)]);
    assert_eq!(c.queue.upcoming.len(), 1);
}

#[test]
fn end_of_file_restarts_cycle_with_repeat_all() {
    let mut c = new_core("all", "off");
    cmd(&mut c, PlayerCommand::Play { url: "u".into(), entry: entry("a") });
    cmd(&mut c, PlayerCommand::Enqueue(entry("b")));
    c.handle_mpv_event(MpvEvent::EndFile(EndFileStatus::Eof));
    let acts = c.handle_mpv_event(MpvEvent::EndFile(EndFileStatus::Eof));
    assert_eq!(acts, vec![load("a"), ended("b", EndReason::Eof)]);
    assert_eq!(c.current_track_id, "a");
    assert_eq!(c.queue.upcoming[0].track_id, "b");
    assert!(c.queue.history.is_empty());
}

#[test]
fn end_of_file_other_reasons() {
    let mut c = new_core("off", "favourites");
    cmd(&mut c, PlayerCommand::Play { url: "u".into(), entry: entry("a") });
    assert_eq!(
        c.handle_mpv_event(MpvEvent::EndFile(EndFileStatus::Stop)),
        vec![ended("a", EndReason::Stopped)]
    );
    assert_eq!(
        c.handle_mpv_event(MpvEvent::EndFile(EndFileStatus::Failed("boom".into()))),
        vec![
            PlayerAction::Emit(PlayerNotice::PlaybackFailed("boom".into())),
            ended("a", EndReason::Error),
        ]
    );
    assert_eq!(c.current_track_id, "a");
    assert_eq!(end_reason(&EndFileStatus::Quit), EndReason::Stopped);
    assert_eq!(end_reason(&EndFileStatus::Redirect), EndReason::Error);
    // Favourites mode asks for a refill when the queue runs dry.
    assert_eq!(
        c.handle_mpv_event(MpvEvent::EndFile(EndFileStatus::Eof)),
        vec![
            PlayerAction::Emit(PlayerNotice::QueueRefillRequested {
                mode: ShuffleMode::Favourites,
                based_on_track_id: None,
            }),
            ended("a", EndReason::Eof),
        ]
    );
}

#[test]
fn other_events() {
    let mut c = new_core("off", "off");
    assert_eq!(
        c.handle_mpv_event(MpvEvent::Idle),
        vec![PlayerAction::Emit(PlayerNotice::QueueEmpty)]
    );
    cmd(&mut c, PlayerCommand::Play { url: "u".into(), entry: entry("a") });
    assert!(c.handle_mpv_event(MpvEvent::Idle).is_empty());
    assert_eq!(
        c.handle_mpv_event(MpvEvent::StartFile),
        vec![PlayerAction::Emit(PlayerNotice::TrackStarted { track_id: "a".into() })]
    );
    assert_eq!(c.handle_mpv_event(MpvEvent::Pause), vec![PlayerAction::Emit(PlayerNotice::Paused)]);
    assert_eq!(
        c.handle_mpv_event(MpvEvent::Unpause),
        vec![PlayerAction::Emit(PlayerNotice::Resumed)]
    );
    assert!(c.handle_mpv_event(MpvEvent::Other).is_empty());
}

#[test]
fn refill_notice_by_mode() {
    let st = |m| PlayerState {
        repeat_mode: RepeatMode::Off,
        shuffle_mode: m,
        crossfade_enabled: true,
        crossfade_seconds: 3,
    };
    let id = "t".to_string();
    assert_eq!(emit_refill_or_empty(&st(ShuffleMode::Off), &id), PlayerNotice::QueueEmpty);
    assert_eq!(emit_refill_or_empty(&st(ShuffleMode::Random), &id), PlayerNotice::QueueEmpty);
    assert_eq!(st(ShuffleMode::Off).crossfade(), 3);
}
