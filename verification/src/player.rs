//! The playback state machine: sole authority over a guild's playback state.
//!
//! Every mutating operation is a single critical section on one [`Player`]
//! value: it updates the state and returns the list of [`EngineAction`]
//! commands that the embedding must perform against the audio transport, the
//! voice-session manager and the persistence layer, in order, before handing
//! control back.  The engine's one-shot "track ended" signal and the voice
//! lifecycle signals re-enter through [`Player::on_track_ended`] and
//! [`Player::on_disconnect`].
//!
//! A playback handle is an opaque `u64` token minted here when a start is
//! requested; the embedding keys its real transport handles by that token, so
//! a late "track ended" signal can be recognized as stale by token equality.

use vstd::prelude::*;

use crate::track::{Playlist, Track};

verus! {

/// Why a playback operation was refused.
#[derive(Debug)]
pub enum PlaybackError {
    /// An engine or platform failure, described in plain text.
    InternalError(String),
    /// The queue holds nothing to play.
    NoTracksInQueue,
    /// The operation needs active playback, and there is none.
    PlaybackNotActive,
    /// Playback is already active.
    PlaybackAlreadyActive,
}

impl PlaybackError {
    /// A short human-readable description of the error.
    pub fn message(&self) -> (r: &'static str)
        ensures
            *self matches PlaybackError::InternalError(_) ==> r@ == "Whoops, an internal error occurred"@,
            *self is NoTracksInQueue ==> r@ == "No tracks in queue"@,
            *self is PlaybackNotActive ==> r@ == "Playback is not active"@,
            *self is PlaybackAlreadyActive ==> r@ == "Playback is already active"@,
    {
        match self {
            PlaybackError::InternalError(_) => "Whoops, an internal error occurred",
            PlaybackError::NoTracksInQueue => "No tracks in queue",
            PlaybackError::PlaybackNotActive => "Playback is not active",
            PlaybackError::PlaybackAlreadyActive => "Playback is already active",
        }
    }
}

/// A command for the embedding to perform against the outside collaborators.
///
/// Actions are returned in the order they must be performed.  Volume values
/// are on the display scale (percent of normal); the audio transport's own
/// scale is that value divided by 100.
#[derive(Debug)]
pub enum EngineAction {
    /// Start `track.metadata.track_url` on the audio transport, apply
    /// `volume`, key the transport handle by `handle`, and register the
    /// one-shot end-of-track signal to call back `on_track_ended(handle)`.
    StartTrack { handle: u64, track: Track, volume: u64 },
    /// Stop the transport handle keyed by `handle`; an "already stopped"
    /// engine error must be ignored.
    StopTrack { handle: u64 },
    /// Apply `volume` to the transport handle keyed by `handle`.
    SetVolume { handle: u64, volume: u64 },
    /// Upsert the guild's stored volume.
    PersistVolume { guild_id: u64, volume: u64 },
    /// Drop the guild's voice session from the session manager.
    RemoveSession { guild_id: u64 },
}

/// The mathematical state of a player, used by every contract.
pub ghost struct PlayerView {
    pub is_playing: bool,
    pub current_track: Option<Track>,
    pub track_handle: Option<u64>,
    pub queue: Seq<Track>,
    pub volume: u64,
    pub next_handle: u64,
    pub guild_id: u64,
}

impl PlayerView {
    /// The state invariant: a playing player has exactly one active track and
    /// one live handle; a stopped player has neither.
    pub open spec fn wf(self) -> bool {
        &&& self.is_playing <==> self.current_track is Some
        &&& self.is_playing <==> self.track_handle is Some
    }

    /// Clearing the active track: what `stop_track` does to the state.
    pub open spec fn stop_track_step(self) -> PlayerView {
        PlayerView { is_playing: false, current_track: None, track_handle: None, ..self }
    }

    /// The engine commands that stopping the active track issues.
    pub open spec fn stop_actions(self) -> Seq<EngineAction> {
        match self.track_handle {
            Some(h) => seq![EngineAction::StopTrack { handle: h }],
            None => seq![],
        }
    }

    /// The full reset: `stop_track` plus abandoning the whole queue.
    pub open spec fn stop_playback_step(self) -> PlayerView {
        PlayerView { queue: Seq::empty(), ..self.stop_track_step() }
    }

    /// Handle tokens count up and stick at the top of the range.
    pub open spec fn bump_handle(self) -> u64 {
        if self.next_handle == u64::MAX {
            self.next_handle
        } else {
            (self.next_handle + 1) as u64
        }
    }

    /// The core transition: stop whatever plays, then start the queue head,
    /// or come to rest stopped when the queue is empty.
    pub open spec fn advance_step(self) -> PlayerView {
        if self.queue.len() > 0 {
            PlayerView {
                is_playing: true,
                current_track: Some(self.queue[0]),
                track_handle: Some(self.next_handle),
                queue: self.queue.drop_first(),
                next_handle: self.bump_handle(),
                ..self
            }
        } else {
            self.stop_playback_step()
        }
    }

    /// The engine commands an advance issues after the stop: none, or one
    /// start of the queue head under a fresh handle at the stored volume.
    pub open spec fn start_actions(self) -> Seq<EngineAction> {
        if self.queue.len() > 0 {
            seq![EngineAction::StartTrack {
                handle: self.next_handle,
                track: self.queue[0],
                volume: self.volume,
            }]
        } else {
            seq![]
        }
    }

    /// The track an advance starts, if any; `None` is the valid terminal
    /// "nothing to play" outcome, not an error.
    pub open spec fn advance_result(self) -> Option<Track> {
        if self.queue.len() > 0 {
            Some(self.queue[0])
        } else {
            None
        }
    }

    /// What enqueuing one track does: append, and start playback when stopped.
    pub open spec fn enqueue_track_step(self, track: Track) -> PlayerView {
        let appended = PlayerView { queue: self.queue.push(track), ..self };
        if self.is_playing {
            appended
        } else {
            appended.advance_step()
        }
    }

    /// What enqueuing a playlist does: append all tracks in playlist order,
    /// and start playback when stopped and something is pending.
    pub open spec fn enqueue_playlist_step(self, tracks: Seq<Track>) -> PlayerView {
        let appended = PlayerView { queue: self.queue + tracks, ..self };
        if self.is_playing || appended.queue.len() == 0 {
            appended
        } else {
            appended.advance_step()
        }
    }

    /// How many queue entries `skip(amount)` discards before advancing.
    pub open spec fn skip_discard(self, amount: nat) -> nat {
        if amount - 1 <= self.queue.len() {
            (amount - 1) as nat
        } else {
            self.queue.len()
        }
    }

    /// What `skip(amount)` does while playing: discard up to `amount - 1`
    /// pending tracks from the head, then advance to the new head.
    pub open spec fn skip_step(self, amount: nat) -> PlayerView {
        if self.is_playing {
            PlayerView { queue: self.queue.skip(self.skip_discard(amount) as int), ..self }
                .advance_step()
        } else {
            self
        }
    }

    /// The number of tracks a successful `skip(amount)` reports: the
    /// requested amount, clamped to the available tracks plus the active one.
    pub open spec fn skip_count(self, amount: nat) -> nat {
        if amount <= self.queue.len() {
            amount
        } else {
            self.queue.len() + 1
        }
    }

    /// What `set_volume` does: remember the new display-scale level.
    pub open spec fn set_volume_step(self, volume: u64) -> PlayerView {
        PlayerView { volume, ..self }
    }

    /// The commands `set_volume` issues: apply to the live handle when there
    /// is one (best effort), and always persist for the guild.
    pub open spec fn set_volume_actions(self, volume: u64) -> Seq<EngineAction> {
        let persist = seq![EngineAction::PersistVolume { guild_id: self.guild_id, volume }];
        match self.track_handle {
            Some(h) => seq![EngineAction::SetVolume { handle: h, volume }] + persist,
            None => persist,
        }
    }

    /// What an end-of-track signal for `handle` does: nothing when the signal
    /// is stale (the token no longer names the active handle), otherwise the
    /// same pop-and-start logic as an advance.
    pub open spec fn ended_step(self, handle: u64) -> PlayerView {
        if self.track_handle == Some(handle) {
            self.stop_track_step().advance_step()
        } else {
            self
        }
    }

    /// The commands an end-of-track signal issues: the ended track needs no
    /// stop, so at most one start of the next queue head.
    pub open spec fn ended_actions(self, handle: u64) -> Seq<EngineAction> {
        if self.track_handle == Some(handle) {
            self.stop_track_step().start_actions()
        } else {
            seq![]
        }
    }

    /// The track an end-of-track signal starts, if any; silence on the
    /// natural end of the queue and on a stale signal.
    pub open spec fn ended_result(self, handle: u64) -> Option<Track> {
        if self.track_handle == Some(handle) {
            self.advance_result()
        } else {
            None
        }
    }

    /// What a voice-link drop does: unregister the session and fully reset.
    pub open spec fn disconnect_step(self) -> PlayerView {
        self.stop_playback_step()
    }
}

/// One guild's playback state.  Mutated exclusively through the operations
/// below; the embedding must serialize calls per guild (one writer at a time).
pub struct Player {
    is_playing: bool,
    current_track: Option<Track>,
    track_handle: Option<u64>,
    queue: Vec<Track>,
    volume: u64,
    next_handle: u64,
    guild_id: u64,
}

impl View for Player {
    type V = PlayerView;

    closed spec fn view(&self) -> PlayerView {
        PlayerView {
            is_playing: self.is_playing,
            current_track: self.current_track,
            track_handle: self.track_handle,
            queue: self.queue@,
            volume: self.volume,
            next_handle: self.next_handle,
            guild_id: self.guild_id,
        }
    }
}

/// Relies on rand's `SliceRandom::shuffle` (Fisher-Yates, rand 0.8): it
/// permutes the slice in place by swaps, so exactly the original elements
/// remain, in some order that depends on the thread-local generator.
#[verifier::external_body]
fn shuffle_in_place(v: &mut Vec<Track>)
    ensures
        final(v)@.to_multiset() == old(v)@.to_multiset(),
        final(v)@.len() == old(v)@.len(),
{
    let mut rng = rand::thread_rng();
    rand::seq::SliceRandom::shuffle(v.as_mut_slice(), &mut rng);
}

/// Remove the first `k` entries of `q`, oldest first.
fn drop_front(q: &mut Vec<Track>, k: usize)
    requires
        k <= old(q)@.len(),
    ensures
        final(q)@ == old(q)@.skip(k as int),
{
    let mut i: usize = 0;
    while i < k
        invariant
            i <= k,
            k <= old(q)@.len(),
            q@ == old(q)@.skip(i as int),
        decreases k - i,
    {
        q.remove(0);
        proof {
            assert(old(q)@.skip(i as int).remove(0) =~= old(q)@.skip(i + 1));
        }
        i = i + 1;
    }
}

impl Player {
    /// A fresh, stopped player for one guild, hydrated from the guild's
    /// persisted display-scale volume; 50 percent when none was stored.
    pub fn new(guild_id: u64, stored_volume: Option<u64>) -> (p: Player)
        ensures
            p@ == (PlayerView {
                is_playing: false,
                current_track: None,
                track_handle: None,
                queue: Seq::empty(),
                volume: match stored_volume { Some(v) => v, None => 50u64 },
                next_handle: 0,
                guild_id,
            }),
            p@.wf(),
    {
        Player {
            is_playing: false,
            current_track: None,
            track_handle: None,
            queue: Vec::new(),
            volume: match stored_volume {
                Some(v) => v,
                None => 50,
            },
            next_handle: 0,
            guild_id,
        }
    }

    /// Whether a track is currently active.
    pub fn is_playing(&self) -> (r: bool)
        ensures
            r == self@.is_playing,
    {
        self.is_playing
    }

    /// The currently active track, if any.
    pub fn current_track(&self) -> (r: &Option<Track>)
        ensures
            *r == self@.current_track,
    {
        &self.current_track
    }

    /// The pending queue, oldest first; the active track is not in it.
    pub fn queue_snapshot(&self) -> (r: &Vec<Track>)
        ensures
            r@ == self@.queue,
    {
        &self.queue
    }

    /// The stored display-scale volume.
    pub fn volume(&self) -> (r: u64)
        ensures
            r == self@.volume,
    {
        self.volume
    }

    /// Stop the active track, if any, and clear the playing state; the queue
    /// stays.  Idempotent.
    pub fn stop_track(&mut self) -> (actions: Vec<EngineAction>)
        ensures
            final(self)@ == old(self)@.stop_track_step(),
            actions@ == old(self)@.stop_actions(),
            final(self)@.wf(),
    {
        let mut actions: Vec<EngineAction> = Vec::new();
        if let Some(h) = self.track_handle {
            actions.push(EngineAction::StopTrack { handle: h });
        }
        self.is_playing = false;
        self.current_track = None;
        self.track_handle = None;
        proof {
            assert(actions@ =~= old(self)@.stop_actions());
        }
        actions
    }

    /// Full reset: stop the active track and abandon every pending track.
    pub fn stop_playback(&mut self) -> (actions: Vec<EngineAction>)
        ensures
            final(self)@ == old(self)@.stop_playback_step(),
            actions@ == old(self)@.stop_actions(),
            final(self)@.wf(),
    {
        let actions = self.stop_track();
        self.queue.clear();
        actions
    }

    /// The core transition: stop whatever plays, pop the queue head and start
    /// it under a fresh handle, or come to rest stopped when the queue is
    /// empty.  Returns the newly started track, or `None` for the valid
    /// "nothing to play" terminal outcome.
    pub fn next_track(&mut self) -> (r: (Option<Track>, Vec<EngineAction>))
        ensures
            final(self)@ == old(self)@.advance_step(),
            r.0 == old(self)@.advance_result(),
            r.1@ == old(self)@.stop_actions() + old(self)@.start_actions(),
            final(self)@.wf(),
    {
        let mut actions = self.stop_track();
        if self.queue.len() > 0 {
            let track = self.queue.remove(0);
            let fresh = self.next_handle;
            self.next_handle = if fresh == u64::MAX {
                fresh
            } else {
                fresh + 1
            };
            actions.push(EngineAction::StartTrack {
                handle: fresh,
                track: track.clone(),
                volume: self.volume,
            });
            self.current_track = Some(track.clone());
            self.track_handle = Some(fresh);
            self.is_playing = true;
            proof {
                assert(old(self)@.queue.remove(0) =~= old(self)@.queue.drop_first());
                assert(actions@ =~= old(self)@.stop_actions() + old(self)@.start_actions());
            }
            (Some(track), actions)
        } else {
            self.queue.clear();
            proof {
                assert(old(self)@.stop_actions() + old(self)@.start_actions() =~= old(
                    self,
                )@.stop_actions());
            }
            (None, actions)
        }
    }

    /// Start playback from a stopped state.  Refused while already playing or
    /// with an empty queue; otherwise delegates to [`Player::next_track`].
    pub fn start_playback(&mut self) -> (r: (Result<(), PlaybackError>, Vec<EngineAction>))
        ensures
            old(self)@.is_playing ==> {
                &&& r.0 == Err::<(), PlaybackError>(PlaybackError::PlaybackAlreadyActive)
                &&& final(self)@ == old(self)@
                &&& r.1@ == Seq::<EngineAction>::empty()
            },
            !old(self)@.is_playing && old(self)@.queue.len() == 0 ==> {
                &&& r.0 == Err::<(), PlaybackError>(PlaybackError::NoTracksInQueue)
                &&& final(self)@ == old(self)@
                &&& r.1@ == Seq::<EngineAction>::empty()
            },
            !old(self)@.is_playing && old(self)@.queue.len() > 0 ==> {
                &&& r.0 == Ok::<(), PlaybackError>(())
                &&& final(self)@ == old(self)@.advance_step()
                &&& r.1@ == old(self)@.stop_actions() + old(self)@.start_actions()
            },
            old(self)@.wf() ==> final(self)@.wf(),
    {
        if self.is_playing {
            return (Err(PlaybackError::PlaybackAlreadyActive), Vec::new());
        }
        if self.queue.len() == 0 {
            return (Err(PlaybackError::NoTracksInQueue), Vec::new());
        }
        let (_, actions) = self.next_track();
        (Ok(()), actions)
    }

    /// Append one track to the queue tail; when stopped, this also starts
    /// playback of the queue head.  The append itself never fails.
    pub fn add_track_to_queue(&mut self, track: Track) -> (r: (
        Result<(), PlaybackError>,
        Vec<EngineAction>,
    ))
        ensures
            r.0 == Ok::<(), PlaybackError>(()),
            final(self)@ == old(self)@.enqueue_track_step(track),
            old(self)@.is_playing ==> r.1@ == Seq::<EngineAction>::empty(),
            !old(self)@.is_playing ==> r.1@ == old(self)@.stop_actions() + (PlayerView {
                queue: old(self)@.queue.push(track),
                ..old(self)@
            }).start_actions(),
            old(self)@.wf() ==> final(self)@.wf(),
    {
        self.queue.push(track);
        if !self.is_playing {
            let (_, actions) = self.next_track();
            (Ok(()), actions)
        } else {
            (Ok(()), Vec::new())
        }
    }

    /// Append a playlist's tracks in playlist order; when stopped, this also
    /// starts playback of the queue head.  Refused only when it leaves a
    /// stopped player with nothing to play.
    pub fn add_playlist_to_queue(&mut self, playlist: Playlist) -> (r: (
        Result<(), PlaybackError>,
        Vec<EngineAction>,
    ))
        ensures
            final(self)@ == old(self)@.enqueue_playlist_step(playlist.tracks@),
            r.0 == (if !old(self)@.is_playing && old(self)@.queue.len() + playlist.tracks@.len()
                == 0 {
                Err::<(), PlaybackError>(PlaybackError::NoTracksInQueue)
            } else {
                Ok::<(), PlaybackError>(())
            }),
            old(self)@.is_playing || old(self)@.queue.len() + playlist.tracks@.len() == 0
                ==> r.1@ == Seq::<EngineAction>::empty(),
            !old(self)@.is_playing && old(self)@.queue.len() + playlist.tracks@.len() > 0
                ==> r.1@ == old(self)@.stop_actions() + (PlayerView {
                queue: old(self)@.queue + playlist.tracks@,
                ..old(self)@
            }).start_actions(),
            old(self)@.wf() ==> final(self)@.wf(),
    {
        let mut incoming = playlist.tracks;
        self.queue.append(&mut incoming);
        if !self.is_playing {
            if self.queue.len() == 0 {
                return (Err(PlaybackError::NoTracksInQueue), Vec::new());
            }
            let (_, actions) = self.next_track();
            (Ok(()), actions)
        } else {
            (Ok(()), Vec::new())
        }
    }

    /// Skip the active track and up to `amount - 1` pending ones, then start
    /// the new queue head; with an empty queue this degenerates to a full
    /// stop.  Returns how many tracks were actually skipped.  Refused while
    /// nothing is playing.
    pub fn skip(&mut self, amount: usize) -> (r: (
        Result<usize, PlaybackError>,
        Vec<EngineAction>,
    ))
        requires
            amount >= 1,
        ensures
            final(self)@ == old(self)@.skip_step(amount as nat),
            old(self)@.is_playing ==> {
                &&& r.0 matches Ok(k) && k == old(self)@.skip_count(amount as nat)
                &&& r.1@ == old(self)@.stop_actions() + (PlayerView {
                    queue: old(self)@.queue.skip(
                        old(self)@.skip_discard(amount as nat) as int,
                    ),
                    ..old(self)@
                }).start_actions()
            },
            !old(self)@.is_playing ==> {
                &&& r.0 == Err::<usize, PlaybackError>(PlaybackError::PlaybackNotActive)
                &&& r.1@ == Seq::<EngineAction>::empty()
            },
            old(self)@.wf() ==> final(self)@.wf(),
    {
        if !self.is_playing {
            return (Err(PlaybackError::PlaybackNotActive), Vec::new());
        }
        let len = self.queue.len();
        let discard = if amount - 1 <= len {
            amount - 1
        } else {
            len
        };
        drop_front(&mut self.queue, discard);
        let (_, actions) = self.next_track();
        let skipped = if amount <= len {
            amount
        } else {
            len + 1
        };
        (Ok(skipped), actions)
    }

    /// Remember a new display-scale volume for this guild and every future
    /// track; apply it to the active handle when there is one (best effort)
    /// and persist it.  Never fails.
    pub fn set_volume(&mut self, volume: u64) -> (actions: Vec<EngineAction>)
        ensures
            final(self)@ == old(self)@.set_volume_step(volume),
            actions@ == old(self)@.set_volume_actions(volume),
            old(self)@.wf() ==> final(self)@.wf(),
    {
        let mut actions: Vec<EngineAction> = Vec::new();
        if let Some(h) = self.track_handle {
            actions.push(EngineAction::SetVolume { handle: h, volume });
        }
        actions.push(EngineAction::PersistVolume { guild_id: self.guild_id, volume });
        self.volume = volume;
        proof {
            assert(actions@ =~= old(self)@.set_volume_actions(volume));
        }
        actions
    }

    /// Randomly permute the pending queue in place; the active track and all
    /// other state stay untouched.  A queue of length 0 or 1 is left as is.
    pub fn shuffle(&mut self)
        ensures
            final(self)@.queue.to_multiset() == old(self)@.queue.to_multiset(),
            final(self)@.queue.len() == old(self)@.queue.len(),
            final(self)@ == (PlayerView { queue: final(self)@.queue, ..old(self)@ }),
            old(self)@.wf() ==> final(self)@.wf(),
    {
        if self.queue.len() > 1 {
            shuffle_in_place(&mut self.queue);
        }
    }

    /// The engine's end-of-track signal for the handle token it was
    /// registered under.  A stale token (the active track changed or playback
    /// stopped since the signal fired) is a silent no-op; a live token means
    /// the active track finished naturally, so the queue head is started, or
    /// the playing state is cleared in silence at the end of the queue.
    pub fn on_track_ended(&mut self, handle: u64) -> (r: (Option<Track>, Vec<EngineAction>))
        ensures
            final(self)@ == old(self)@.ended_step(handle),
            r.0 == old(self)@.ended_result(handle),
            r.1@ == old(self)@.ended_actions(handle),
            old(self)@.wf() ==> final(self)@.wf(),
    {
        let live = match self.track_handle {
            Some(h) => h == handle,
            None => false,
        };
        if !live {
            return (None, Vec::new());
        }
        self.is_playing = false;
        self.current_track = None;
        self.track_handle = None;
        let (started, actions) = self.next_track();
        proof {
            assert(old(self)@.stop_track_step().stop_actions() + old(
                self,
            )@.stop_track_step().start_actions() =~= old(self)@.ended_actions(handle));
        }
        (started, actions)
    }

    /// The voice link dropped unexpectedly: unregister the guild's session
    /// and fully reset, so no state points at a dead handle.  Never fails
    /// outward.
    pub fn on_disconnect(&mut self) -> (actions: Vec<EngineAction>)
        ensures
            final(self)@ == old(self)@.disconnect_step(),
            actions@ == seq![
                EngineAction::RemoveSession { guild_id: old(self)@.guild_id },
            ] + old(self)@.stop_actions(),
            final(self)@.wf(),
    {
        let mut actions: Vec<EngineAction> = Vec::new();
        actions.push(EngineAction::RemoveSession { guild_id: self.guild_id });
        let mut stop = self.stop_playback();
        actions.append(&mut stop);
        proof {
            assert(actions@ =~= seq![
                EngineAction::RemoveSession { guild_id: old(self)@.guild_id },
            ] + old(self)@.stop_actions());
        }
        actions
    }
}

/// One foreground command, as the safety law below quantifies over them.
pub ghost enum PlayerOp {
    EnqueueTrack(Track),
    EnqueuePlaylist(Seq<Track>),
    Skip(nat),
    StopPlayback,
}

impl PlayerView {
    /// The state transition of one foreground command.
    pub open spec fn apply_op(self, op: PlayerOp) -> PlayerView {
        match op {
            PlayerOp::EnqueueTrack(t) => self.enqueue_track_step(t),
            PlayerOp::EnqueuePlaylist(ts) => self.enqueue_playlist_step(ts),
            PlayerOp::Skip(n) => self.skip_step(n),
            PlayerOp::StopPlayback => self.stop_playback_step(),
        }
    }

    /// The state after a whole command sequence, issued one at a time.
    pub open spec fn run_ops(self, ops: Seq<PlayerOp>) -> PlayerView
        decreases ops.len(),
    {
        if ops.len() == 0 {
            self
        } else {
            self.apply_op(ops[0]).run_ops(ops.drop_first())
        }
    }
}

/// Every single command preserves the state invariant.
pub proof fn lemma_op_preserves_wf(v: PlayerView, op: PlayerOp)
    requires
        v.wf(),
    ensures
        v.apply_op(op).wf(),
{
}

/// For every sequence of enqueue-track, enqueue-playlist, skip and
/// stop-playback commands issued one at a time from a well-formed state, the
/// state stays well formed; in particular a playing player always has a
/// current track.
pub proof fn lemma_command_sequences_keep_invariant(v: PlayerView, ops: Seq<PlayerOp>)
    requires
        v.wf(),
    ensures
        v.run_ops(ops).wf(),
        v.run_ops(ops).is_playing ==> v.run_ops(ops).current_track is Some,
    decreases ops.len(),
{
    if ops.len() > 0 {
        lemma_op_preserves_wf(v, ops[0]);
        lemma_command_sequences_keep_invariant(v.apply_op(ops[0]), ops.drop_first());
    }
}

/// A volume that was set is read back exactly as stored, whether or not a
/// track is currently active, and nothing else of the state moves.
pub proof fn lemma_set_volume_read_back(v: PlayerView, volume: u64)
    ensures
        v.set_volume_step(volume).volume == volume,
        v.set_volume_step(volume) == (PlayerView { volume, ..v }),
{
}

/// A stale end-of-track signal (its handle token no longer names the active
/// handle) leaves the state unchanged, issues no engine command and starts
/// nothing.
pub proof fn lemma_stale_signal_is_noop(v: PlayerView, handle: u64)
    requires
        v.track_handle != Some(handle),
    ensures
        v.ended_step(handle) == v,
        v.ended_actions(handle) == Seq::<EngineAction>::empty(),
        v.ended_result(handle) is None,
{
}

/// After a full stop, every end-of-track signal still in flight is stale: it
/// leaves the stopped state exactly as it is.
pub proof fn lemma_signal_after_stop_is_noop(v: PlayerView, handle: u64)
    ensures
        v.stop_playback_step().ended_step(handle) == v.stop_playback_step(),
        v.stop_playback_step().ended_actions(handle) == Seq::<EngineAction>::empty(),
{
}

} // verus!
