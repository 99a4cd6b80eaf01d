use rustytunes::player::{EngineAction, PlaybackError, Player};
use rustytunes::track::{Playlist, Track, TrackMetadata};

fn mk_track(id: &str) -> Track {
    Track {
        id: id.to_string(),
        metadata: TrackMetadata {
            id: id.to_string(),
            title: format!("title {}", id),
            channel: "chan".to_string(),
            track_url: format!("https://www.youtube.com/watch?v={}", id),
            thumbnail_url: None,
        },
    }
}

fn queue_ids(p: &Player) -> Vec<String> {
    p.queue_snapshot().iter().map(|t| t.id.clone()).collect()
}

fn current_id(p: &Player) -> Option<String> {
    p.current_track().as_ref().map(|t| t.id.clone())
}

#[test]
fn new_player_hydrates_volume() {
    let p = Player::new(7, Some(300));
    assert_eq!(p.volume(), 300);
    assert!(!p.is_playing());
    assert!(p.current_track().is_none());
    assert!(p.queue_snapshot().is_empty());
    let q = Player::new(7, None);
    assert_eq!(q.volume(), 50);
}

#[test]
fn enqueue_on_stopped_plays_that_track() {
    let mut p = Player::new(1, None);
    let (r, actions) = p.add_track_to_queue(mk_track("T"));
    assert!(r.is_ok());
    assert!(p.is_playing());
    assert_eq!(current_id(&p).as_deref(), Some("T"));
    assert!(p.queue_snapshot().is_empty());
    assert_eq!(actions.len(), 1);
    match &actions[0] {
        EngineAction::StartTrack { handle, track, volume } => {
            assert_eq!(*handle, 0);
            assert_eq!(track.id, "T");
            assert_eq!(*volume, 50);
        }
        other => panic!("unexpected action {:?}", other),
    }
}

#[test]
fn enqueue_while_playing_appends_silently() {
    let mut p = Player::new(1, None);
    p.add_track_to_queue(mk_track("T"));
    let (r, actions) = p.add_track_to_queue(mk_track("U"));
    assert!(r.is_ok());
    assert!(actions.is_empty());
    assert_eq!(current_id(&p).as_deref(), Some("T"));
    assert_eq!(queue_ids(&p), vec!["U".to_string()]);
}

#[test]
fn skip_discards_and_starts_new_head() {
    let mut p = Player::new(1, None);
    p.add_track_to_queue(mk_track("X"));
    for id in ["A", "B", "C", "D"] {
        p.add_track_to_queue(mk_track(id));
    }
    let (r, actions) = p.skip(3);
    assert_eq!(r.unwrap(), 3);
    assert!(p.is_playing());
    assert_eq!(current_id(&p).as_deref(), Some("C"));
    assert_eq!(queue_ids(&p), vec!["D".to_string()]);
    assert!(matches!(actions[0], EngineAction::StopTrack { handle: 0 }));
    match &actions[1] {
        EngineAction::StartTrack { track, .. } => assert_eq!(track.id, "C"),
        other => panic!("unexpected action {:?}", other),
    }
}

#[test]
fn skip_with_empty_queue_stops_playback() {
    let mut p = Player::new(1, None);
    p.add_track_to_queue(mk_track("X"));
    let (r, actions) = p.skip(1);
    assert_eq!(r.unwrap(), 1);
    assert!(!p.is_playing());
    assert!(p.current_track().is_none());
    assert!(p.queue_snapshot().is_empty());
    assert_eq!(actions.len(), 1);
    assert!(matches!(actions[0], EngineAction::StopTrack { handle: 0 }));
}

#[test]
fn skip_clamps_to_available_tracks() {
    let mut p = Player::new(1, None);
    p.add_track_to_queue(mk_track("X"));
    p.add_track_to_queue(mk_track("A"));
    let (r, _) = p.skip(10);
    assert_eq!(r.unwrap(), 2);
    assert!(!p.is_playing());
}

#[test]
fn skip_while_stopped_is_refused() {
    let mut p = Player::new(1, None);
    let (r, actions) = p.skip(1);
    assert!(matches!(r, Err(PlaybackError::PlaybackNotActive)));
    assert!(actions.is_empty());
}

#[test]
fn start_playback_error_cases() {
    let mut p = Player::new(1, None);
    let (r, _) = p.start_playback();
    assert!(matches!(r, Err(PlaybackError::NoTracksInQueue)));
    p.add_track_to_queue(mk_track("T"));
    let (r, _) = p.start_playback();
    assert!(matches!(r, Err(PlaybackError::PlaybackAlreadyActive)));
}

#[test]
fn set_volume_reads_back_regardless_of_playback() {
    let mut stopped = Player::new(1, None);
    let actions = stopped.set_volume(50);
    assert_eq!(stopped.volume(), 50);
    assert_eq!(actions.len(), 1);
    assert!(matches!(
        actions[0],
        EngineAction::PersistVolume { guild_id: 1, volume: 50 }
    ));

    let mut playing = Player::new(2, None);
    playing.add_track_to_queue(mk_track("T"));
    let actions = playing.set_volume(50);
    assert_eq!(playing.volume(), 50);
    assert_eq!(actions.len(), 2);
    assert!(matches!(
        actions[0],
        EngineAction::SetVolume { handle: 0, volume: 50 }
    ));
    assert!(matches!(
        actions[1],
        EngineAction::PersistVolume { guild_id: 2, volume: 50 }
    ));
}

#[test]
fn volume_is_inherited_by_next_track() {
    let mut p = Player::new(1, None);
    p.set_volume(120);
    let (_, actions) = p.add_track_to_queue(mk_track("T"));
    match &actions[0] {
        EngineAction::StartTrack { volume, .. } => assert_eq!(*volume, 120),
        other => panic!("unexpected action {:?}", other),
    }
}

#[test]
fn natural_end_advances_queue() {
    let mut p = Player::new(1, None);
    p.add_track_to_queue(mk_track("T1"));
    p.add_track_to_queue(mk_track("T2"));
    let (started, actions) = p.on_track_ended(0);
    assert_eq!(started.map(|t| t.id), Some("T2".to_string()));
    assert!(p.is_playing());
    assert_eq!(current_id(&p).as_deref(), Some("T2"));
    assert_eq!(actions.len(), 1);
    match &actions[0] {
        EngineAction::StartTrack { handle, track, .. } => {
            assert_eq!(*handle, 1);
            assert_eq!(track.id, "T2");
        }
        other => panic!("unexpected action {:?}", other),
    }
}

#[test]
fn natural_end_of_queue_is_silent() {
    let mut p = Player::new(1, None);
    p.add_track_to_queue(mk_track("T"));
    let (started, actions) = p.on_track_ended(0);
    assert!(started.is_none());
    assert!(actions.is_empty());
    assert!(!p.is_playing());
    assert!(p.current_track().is_none());
}

#[test]
fn stale_signal_after_stop_is_noop() {
    let mut p = Player::new(1, None);
    p.add_track_to_queue(mk_track("T"));
    p.add_track_to_queue(mk_track("U"));
    p.stop_playback();
    let (started, actions) = p.on_track_ended(0);
    assert!(started.is_none());
    assert!(actions.is_empty());
    assert!(!p.is_playing());
    assert!(p.current_track().is_none());
    assert!(p.queue_snapshot().is_empty());
}

#[test]
fn stale_signal_after_skip_is_noop() {
    let mut p = Player::new(1, None);
    p.add_track_to_queue(mk_track("T1"));
    p.add_track_to_queue(mk_track("T2"));
    p.skip(1);
    assert_eq!(current_id(&p).as_deref(), Some("T2"));
    // the engine's signal for the forcibly stopped first track arrives late
    let (started, actions) = p.on_track_ended(0);
    assert!(started.is_none());
    assert!(actions.is_empty());
    assert_eq!(current_id(&p).as_deref(), Some("T2"));
    assert!(p.is_playing());
}

#[test]
fn stop_playback_clears_everything() {
    let mut p = Player::new(1, None);
    p.add_track_to_queue(mk_track("T"));
    p.add_track_to_queue(mk_track("U"));
    let actions = p.stop_playback();
    assert!(matches!(actions[0], EngineAction::StopTrack { handle: 0 }));
    assert!(!p.is_playing());
    assert!(p.current_track().is_none());
    assert!(p.queue_snapshot().is_empty());
}

#[test]
fn stop_track_keeps_queue() {
    let mut p = Player::new(1, None);
    p.add_track_to_queue(mk_track("T"));
    p.add_track_to_queue(mk_track("U"));
    p.stop_track();
    assert!(!p.is_playing());
    assert_eq!(queue_ids(&p), vec!["U".to_string()]);
}

#[test]
fn playlist_enqueue_preserves_order() {
    let mut p = Player::new(1, None);
    let playlist = Playlist {
        id: "pl".to_string(),
        title: "pl title".to_string(),
        description: String::new(),
        playlist_url: "https://www.youtube.com/playlist?list=pl".to_string(),
        tracks: vec![mk_track("A"), mk_track("B"), mk_track("C")],
    };
    let (r, actions) = p.add_playlist_to_queue(playlist);
    assert!(r.is_ok());
    assert!(p.is_playing());
    assert_eq!(current_id(&p).as_deref(), Some("A"));
    assert_eq!(queue_ids(&p), vec!["B".to_string(), "C".to_string()]);
    assert_eq!(actions.len(), 1);
}

#[test]
fn empty_playlist_on_stopped_player_is_refused() {
    let mut p = Player::new(1, None);
    let playlist = Playlist {
        id: "pl".to_string(),
        title: "pl title".to_string(),
        description: String::new(),
        playlist_url: "https://www.youtube.com/playlist?list=pl".to_string(),
        tracks: Vec::new(),
    };
    let (r, actions) = p.add_playlist_to_queue(playlist);
    assert!(matches!(r, Err(PlaybackError::NoTracksInQueue)));
    assert!(actions.is_empty());
}

#[test]
fn shuffle_keeps_the_same_tracks() {
    let mut p = Player::new(1, None);
    p.add_track_to_queue(mk_track("X"));
    for id in ["A", "B", "C", "D", "E", "F", "G", "H"] {
        p.add_track_to_queue(mk_track(id));
    }
    let mut before = queue_ids(&p);
    p.shuffle();
    let mut after = queue_ids(&p);
    assert_eq!(current_id(&p).as_deref(), Some("X"));
    before.sort();
    after.sort();
    assert_eq!(before, after);
}

#[test]
fn disconnect_resets_and_unregisters() {
    let mut p = Player::new(9, None);
    p.add_track_to_queue(mk_track("T"));
    p.add_track_to_queue(mk_track("U"));
    let actions = p.on_disconnect();
    assert!(matches!(actions[0], EngineAction::RemoveSession { guild_id: 9 }));
    assert!(matches!(actions[1], EngineAction::StopTrack { handle: 0 }));
    assert!(!p.is_playing());
    assert!(p.queue_snapshot().is_empty());
}
