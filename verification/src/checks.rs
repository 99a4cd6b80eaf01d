//! The pure decisions behind the voice-channel checks and the inactivity
//! handler: the embedding reads the platform's cached voice states and
//! hands them here as plain values.

use vstd::prelude::*;

verus! {

/// One member's cached voice state, reduced to plain values.
#[derive(Debug)]
pub struct VoiceMemberState {
    pub user_id: u64,
    /// The voice channel the member sits in, if any.
    pub channel_id: Option<u64>,
    /// Whether the member is a bot account.
    pub is_bot: bool,
}

/// Whether a member counts as human company in `channel`.
pub open spec fn counts_in_channel(m: VoiceMemberState, channel: Option<u64>) -> bool {
    m.channel_id == channel && !m.is_bot
}

/// How many non-bot members sit in `channel`.
pub open spec fn members_in_channel(states: Seq<VoiceMemberState>, channel: Option<u64>) -> nat
    decreases states.len(),
{
    if states.len() == 0 {
        0
    } else {
        members_in_channel(states.drop_last(), channel) + (if counts_in_channel(
            states.last(),
            channel,
        ) {
            1nat
        } else {
            0nat
        })
    }
}

/// Whether two optional channel ids name the same thing.
fn opt_channel_eq(a: Option<u64>, b: Option<u64>) -> (r: bool)
    ensures
        r == (a == b),
{
    match (a, b) {
        (Some(x), Some(y)) => x == y,
        (None, None) => true,
        _ => false,
    }
}

/// Count the non-bot members currently sitting in `channel`.
pub fn count_channel_members(states: &Vec<VoiceMemberState>, channel: Option<u64>) -> (r: usize)
    ensures
        r == members_in_channel(states@, channel),
{
    let mut count: usize = 0;
    let mut i: usize = 0;
    while i < states.len()
        invariant
            i <= states@.len(),
            count <= i,
            count == members_in_channel(states@.subrange(0, i as int), channel),
        decreases states@.len() - i,
    {
        proof {
            assert(states@.subrange(0, i + 1).drop_last() =~= states@.subrange(0, i as int));
        }
        if opt_channel_eq(states[i].channel_id, channel) && !states[i].is_bot {
            count = count + 1;
        }
        i = i + 1;
    }
    proof {
        assert(states@.subrange(0, states@.len() as int) =~= states@);
    }
    count
}

/// The inactivity handler's decision: reclaim the channel (leave) exactly
/// when no non-bot member is left in the bot's channel.
pub fn should_leave_channel(states: &Vec<VoiceMemberState>, bot_channel: Option<u64>) -> (r: bool)
    ensures
        r == (members_in_channel(states@, bot_channel) == 0),
{
    count_channel_members(states, bot_channel) == 0
}

/// The decision table of the same-channel check: fine when the author
/// shares the bot's channel or the bot is in none; refused when the author
/// sits elsewhere or in no channel at all.
pub fn author_in_same_channel(user_channel: Option<u64>, bot_channel: Option<u64>) -> (r: bool)
    ensures
        r == (match (user_channel, bot_channel) {
            (Some(u), Some(b)) => u == b,
            (Some(_), None) => true,
            (None, _) => false,
        }),
{
    match (user_channel, bot_channel) {
        (Some(u), Some(b)) => u == b,
        (Some(_), None) => true,
        (None, _) => false,
    }
}

/// The decision of the in-a-voice-channel check over the platform's
/// answer: only a definite yes passes.
pub fn author_in_voice_channel(user_found: Option<bool>) -> (r: bool)
    ensures
        r == (user_found == Some(true)),
{
    match user_found {
        Some(true) => true,
        _ => false,
    }
}

} // verus!
