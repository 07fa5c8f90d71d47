//! The per-track controller: the only object the rest of the application
//! touches for one track.
//!
//! The controller accepts a command, updates its cached, UI-facing state
//! synchronously (optimistic: forwarding is fire-and-forget, so the cache
//! may briefly lead the backend), and forwards the command to its worker.
//! It caches both the play flag and the last commanded volume, so a redraw
//! never shows a drifting default. Once the worker is gone — a Stop was
//! accepted — every further command is refused with a distinct error
//! instead of panicking.

use vstd::prelude::*;

use crate::command::{Command, Volume, all_valid, has_stop, last_transport_is_play,
    lemma_playing_iff_last_transport_is_play, playing_after, stop_terminal, volume_after};

verus! {

/// A command could not be delivered.
#[derive(Clone, Copy, PartialEq, Eq, Structural, Debug)]
pub enum TrackError {
    /// The track's worker has already terminated: the command channel is
    /// closed and the command was not sent.
    TrackUnavailable,
}

/// The front-facing handle for one track.
pub struct TrackController {
    /// Human-readable name, immutable after creation.
    pub label: String,
    /// The audio asset this track plays, immutable after creation.
    pub source_path: String,
    /// Cached play flag: true exactly when the most recent accepted
    /// transport command was Play.
    pub is_playing: bool,
    /// Cached last commanded volume; full scale until a ChangeVolume is
    /// accepted, matching the stream's initial volume.
    pub volume: Volume,
    /// Whether the worker is still accepting commands: true until a Stop
    /// is accepted.
    pub live: bool,
    /// Every command accepted and forwarded, in send order.
    pub sent: Ghost<Seq<Command>>,
}

impl TrackController {
    /// The cached state is exactly what the accepted history dictates.
    pub open spec fn wf(self) -> bool {
        &&& self.volume.valid()
        &&& all_valid(self.sent@)
        &&& stop_terminal(self.sent@)
        &&& self.is_playing == playing_after(self.sent@)
        &&& self.volume == volume_after(self.sent@, Volume::full_spec())
        &&& (self.live <==> !has_stop(self.sent@))
    }

    /// A fresh controller: nothing sent, not playing, full volume, live.
    pub fn new(source_path: String, label: String) -> (c: TrackController)
        ensures
            c.wf(),
            c.sent@ == Seq::<Command>::empty(),
            c.label@ == label@,
            c.source_path@ == source_path@,
            !c.is_playing,
            c.volume == Volume::full_spec(),
            c.live,
    {
        TrackController {
            label,
            source_path,
            is_playing: false,
            volume: Volume::full(),
            live: true,
            sent: Ghost(Seq::empty()),
        }
    }

    /// Accepts one command: updates the cached flags and records the
    /// command as forwarded. Play sets the play flag; Pause and Stop clear
    /// it; ChangeVolume only refreshes the cached volume. Stop also ends
    /// acceptance: after it, or on a track whose worker is already gone,
    /// the command is refused unchanged with `TrackUnavailable`.
    pub fn update(&mut self, cmd: Command) -> (r: Result<(), TrackError>)
        requires
            old(self).wf(),
            cmd.valid(),
        ensures
            final(self).wf(),
            final(self).label == old(self).label,
            final(self).source_path == old(self).source_path,
            old(self).live ==> r == Ok::<(), TrackError>(())
                && final(self).sent@ == old(self).sent@.push(cmd)
                && (final(self).is_playing <==> (cmd == Command::Play
                    || (cmd matches Command::ChangeVolume(_) && old(self).is_playing)))
                && final(self).volume == (match cmd {
                    Command::ChangeVolume(v) => v,
                    _ => old(self).volume,
                })
                && (final(self).live <==> cmd != Command::Stop),
            !old(self).live ==> r == Err::<(), TrackError>(TrackError::TrackUnavailable)
                && *final(self) == *old(self),
    {
        if !self.live {
            return Err(TrackError::TrackUnavailable);
        }
        match cmd {
            Command::Play => {
                self.is_playing = true;
            }
            Command::Pause => {
                self.is_playing = false;
            }
            Command::Stop => {
                self.is_playing = false;
                self.live = false;
            }
            Command::ChangeVolume(v) => {
                self.volume = v;
            }
        }
        self.sent = Ghost(self.sent@.push(cmd));
        proof {
            let h = self.sent@;
            assert(h.drop_last() =~= old(self).sent@);
            assert(h.last() == cmd);
            assert(forall|i: int| 0 <= i < h.len() - 1 ==> h[i] == old(self).sent@[i]);
        }
        Ok(())
    }
}

/// State-flag correctness at the controller: the cached play flag of any
/// well-formed controller is true exactly when the most recent Play, Pause
/// or Stop it accepted was a Play.
pub proof fn lemma_state_flag_correct(c: TrackController)
    requires
        c.wf(),
    ensures
        c.is_playing <==> last_transport_is_play(c.sent@),
{
    lemma_playing_iff_last_transport_is_play(c.sent@);
}

} // verus!
