use rustytunes::checks::{
    author_in_same_channel, author_in_voice_channel, count_channel_members, should_leave_channel,
    VoiceMemberState,
};
use rustytunes::notifier::NotifierError;
use rustytunes::player::PlaybackError;
use rustytunes::search::SearchError;
use rustytunes::MusicBotError;

fn voice_state(user_id: u64, channel_id: Option<u64>, is_bot: bool) -> VoiceMemberState {
    VoiceMemberState { user_id, channel_id, is_bot }
}

#[test]
fn same_channel_decision_table() {
    assert!(author_in_same_channel(Some(5), Some(5)));
    assert!(!author_in_same_channel(Some(5), Some(6)));
    assert!(author_in_same_channel(Some(5), None));
    assert!(!author_in_same_channel(None, Some(5)));
    assert!(!author_in_same_channel(None, None));
}

#[test]
fn voice_channel_presence_decision() {
    assert!(author_in_voice_channel(Some(true)));
    assert!(!author_in_voice_channel(Some(false)));
    assert!(!author_in_voice_channel(None));
}

#[test]
fn member_count_ignores_bots_and_other_channels() {
    let states = vec![
        voice_state(1, Some(10), false),
        voice_state(2, Some(10), true),
        voice_state(3, Some(11), false),
        voice_state(4, None, false),
        voice_state(5, Some(10), false),
    ];
    assert_eq!(count_channel_members(&states, Some(10)), 2);
    assert_eq!(count_channel_members(&states, Some(11)), 1);
    assert_eq!(count_channel_members(&states, None), 1);
    assert_eq!(count_channel_members(&Vec::new(), Some(10)), 0);
}

#[test]
fn leave_exactly_when_alone() {
    let company = vec![voice_state(1, Some(10), false), voice_state(9, Some(10), true)];
    assert!(!should_leave_channel(&company, Some(10)));
    let alone = vec![voice_state(9, Some(10), true), voice_state(3, Some(11), false)];
    assert!(should_leave_channel(&alone, Some(10)));
}

#[test]
fn error_messages_read_as_expected() {
    assert_eq!(
        PlaybackError::NoTracksInQueue.message(),
        "No tracks in queue"
    );
    assert_eq!(
        PlaybackError::PlaybackNotActive.message(),
        "Playback is not active"
    );
    assert_eq!(
        PlaybackError::PlaybackAlreadyActive.message(),
        "Playback is already active"
    );
    assert_eq!(NotifierError::InvalidTimeFormat.message(), "Invalid time format");
    assert_eq!(
        SearchError::VideoNotFound("x".to_string()).message(),
        "Video not found"
    );
    assert_eq!(MusicBotError::NoGuildIdError.message(), "No guild ID found");
}
