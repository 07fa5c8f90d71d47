//! The mixer session: the fixed, ordered collection of tracks for one run.
//!
//! The session routes an indexed command to the right controller, lets the
//! workers drain their queues, aggregates per-track state for display, and
//! tears every worker down before it is discarded. Commands to one track
//! never touch any other track's state — tracks are acoustically and
//! operationally independent.

use vstd::prelude::*;

use crate::command::{Command, Volume};
use crate::controller::TrackError;
use crate::track::Track;
use crate::worker::WorkerState;

verus! {

/// What one track is built from: its audio asset and its display name.
pub struct TrackSpec {
    /// Identifies the audio asset to decode.
    pub source_path: String,
    /// Human-readable name shown next to the track's controls.
    pub label: String,
}

/// One track's state as the presentation layer sees it.
pub struct TrackView {
    /// The track's display name.
    pub label: String,
    /// Cached play flag.
    pub is_playing: bool,
    /// Cached last commanded volume.
    pub volume: Volume,
}

/// The top-level owner of the fixed set of tracks.
pub struct MixerSession {
    /// The tracks, in construction order; indices are stable for the
    /// session's lifetime.
    pub tracks: Vec<Track>,
}

impl MixerSession {
    /// Every track is well formed.
    pub open spec fn wf(self) -> bool {
        forall|i: int| 0 <= i < self.tracks@.len() ==> (#[trigger] self.tracks@[i]).wf()
    }

    /// Builds the session eagerly: one track per spec, in spec order, each
    /// constructed (looping, paused, full volume) before this returns.
    pub fn new(specs: &Vec<TrackSpec>) -> (s: MixerSession)
        ensures
            s.wf(),
            s.tracks@.len() == specs@.len(),
            forall|i: int| 0 <= i < specs@.len() ==> (#[trigger] s.tracks@[i]).is_initial(),
            forall|i: int| 0 <= i < specs@.len()
                ==> (#[trigger] s.tracks@[i]).controller.label@ == specs@[i].label@,
            forall|i: int| 0 <= i < specs@.len()
                ==> (#[trigger] s.tracks@[i]).controller.source_path@
                    == specs@[i].source_path@,
    {
        let mut tracks: Vec<Track> = Vec::new();
        let mut i: usize = 0;
        while i < specs.len()
            invariant
                i <= specs@.len(),
                tracks@.len() == i,
                forall|j: int| 0 <= j < i ==> (#[trigger] tracks@[j]).wf(),
                forall|j: int| 0 <= j < i ==> (#[trigger] tracks@[j]).is_initial(),
                forall|j: int| 0 <= j < i
                    ==> (#[trigger] tracks@[j]).controller.label@ == specs@[j].label@,
                forall|j: int| 0 <= j < i
                    ==> (#[trigger] tracks@[j]).controller.source_path@
                        == specs@[j].source_path@,
            decreases specs@.len() - i,
        {
            let t = Track::new(specs[i].source_path.clone(), specs[i].label.clone());
            tracks.push(t);
            i = i + 1;
        }
        MixerSession { tracks }
    }

    /// Routes `cmd` to the track at `index`. An out-of-range index is
    /// silently ignored — index validity is the caller's responsibility,
    /// and a stray index must produce no observable effect. For an
    /// in-range index the command goes to that track alone: every other
    /// track is untouched. A track whose worker is gone reports
    /// `TrackUnavailable` and is itself left unchanged.
    pub fn dispatch(&mut self, index: usize, cmd: Command) -> (r: Result<(), TrackError>)
        requires
            old(self).wf(),
            cmd.valid(),
        ensures
            final(self).wf(),
            final(self).tracks@.len() == old(self).tracks@.len(),
            index >= old(self).tracks@.len() ==> r == Ok::<(), TrackError>(())
                && final(self).tracks@ == old(self).tracks@,
            index < old(self).tracks@.len() ==> forall|j: int|
                0 <= j < old(self).tracks@.len() && j != index
                    ==> final(self).tracks@[j] == old(self).tracks@[j],
            index < old(self).tracks@.len() && old(self).tracks@[
                index as int].controller.live ==> r == Ok::<(), TrackError>(())
                && Track::send_effect(
                    old(self).tracks@[index as int],
                    final(self).tracks@[index as int],
                    cmd,
                ),
            index < old(self).tracks@.len() && !old(self).tracks@[
                index as int].controller.live
                ==> r == Err::<(), TrackError>(TrackError::TrackUnavailable)
                    && final(self).tracks@ == old(self).tracks@,
    {
        if index >= self.tracks.len() {
            return Ok(());
        }
        let mut t = self.tracks.remove(index);
        let r = t.send(cmd);
        self.tracks.insert(index, t);
        proof {
            assert(self.tracks@ =~= old(self).tracks@.update(index as int, self.tracks@[
                index as int]));
            if !old(self).tracks@[index as int].controller.live {
                assert(self.tracks@ =~= old(self).tracks@);
            }
        }
        r
    }

    /// Lets every worker drain its queue, in index order. Each track's
    /// outcome depends on that track alone: its worker applies exactly the
    /// commands its own controller accepted, in send order, whatever was
    /// sent to any other track in between.
    pub fn settle(&mut self)
        requires
            old(self).wf(),
        ensures
            final(self).wf(),
            final(self).tracks@.len() == old(self).tracks@.len(),
            forall|i: int| 0 <= i < old(self).tracks@.len()
                ==> (#[trigger] final(self).tracks@[i]).controller
                    == old(self).tracks@[i].controller,
            forall|i: int| 0 <= i < old(self).tracks@.len()
                ==> (#[trigger] final(self).tracks@[i]).pending@
                    == Seq::<Command>::empty(),
            forall|i: int| 0 <= i < old(self).tracks@.len()
                ==> (#[trigger] final(self).tracks@[i]).worker.applied@
                    == old(self).tracks@[i].worker.applied@
                        + old(self).tracks@[i].pending@,
            forall|i: int| 0 <= i < old(self).tracks@.len()
                ==> (#[trigger] final(self).tracks@[i]).worker.applied@
                    == old(self).tracks@[i].controller.sent@,
    {
        let mut i: usize = 0;
        while i < self.tracks.len()
            invariant
                self.wf(),
                self.tracks@.len() == old(self).tracks@.len(),
                i <= self.tracks@.len(),
                forall|j: int| i <= j < self.tracks@.len()
                    ==> #[trigger] self.tracks@[j] == old(self).tracks@[j],
                forall|j: int| 0 <= j < i
                    ==> (#[trigger] self.tracks@[j]).controller
                        == old(self).tracks@[j].controller,
                forall|j: int| 0 <= j < i
                    ==> (#[trigger] self.tracks@[j]).pending@ == Seq::<Command>::empty(),
                forall|j: int| 0 <= j < i
                    ==> (#[trigger] self.tracks@[j]).worker.applied@
                        == old(self).tracks@[j].worker.applied@
                            + old(self).tracks@[j].pending@,
                forall|j: int| 0 <= j < i
                    ==> (#[trigger] self.tracks@[j]).worker.applied@
                        == old(self).tracks@[j].controller.sent@,
            decreases self.tracks@.len() - i,
        {
            let mut t = self.tracks.remove(i);
            t.pump();
            self.tracks.insert(i, t);
            i = i + 1;
        }
    }

    /// Tears the session down: a Stop is sent to every track still
    /// accepting commands, and every queue is drained. Afterwards no
    /// worker is left running — each has terminated and released its
    /// stream — and no track accepts commands any more.
    pub fn shutdown(&mut self)
        requires
            old(self).wf(),
        ensures
            final(self).wf(),
            final(self).tracks@.len() == old(self).tracks@.len(),
            forall|i: int| 0 <= i < final(self).tracks@.len()
                ==> (#[trigger] final(self).tracks@[i]).worker.state
                    == WorkerState::Terminated,
            forall|i: int| 0 <= i < final(self).tracks@.len()
                ==> (#[trigger] final(self).tracks@[i]).worker.handle.released,
            forall|i: int| 0 <= i < final(self).tracks@.len()
                ==> !(#[trigger] final(self).tracks@[i]).controller.live,
            forall|i: int| 0 <= i < final(self).tracks@.len()
                ==> (#[trigger] final(self).tracks@[i]).pending@
                    == Seq::<Command>::empty(),
    {
        let mut i: usize = 0;
        while i < self.tracks.len()
            invariant
                self.wf(),
                self.tracks@.len() == old(self).tracks@.len(),
                i <= self.tracks@.len(),
                forall|j: int| 0 <= j < i
                    ==> (#[trigger] self.tracks@[j]).worker.state
                        == WorkerState::Terminated,
                forall|j: int| 0 <= j < i
                    ==> (#[trigger] self.tracks@[j]).worker.handle.released,
                forall|j: int| 0 <= j < i
                    ==> !(#[trigger] self.tracks@[j]).controller.live,
                forall|j: int| 0 <= j < i
                    ==> (#[trigger] self.tracks@[j]).pending@
                        == Seq::<Command>::empty(),
            decreases self.tracks@.len() - i,
        {
            let mut t = self.tracks.remove(i);
            if t.controller.live {
                let _ = t.send(Command::Stop);
                proof {
                    let h = t.controller.sent@;
                    assert(h[h.len() - 1] == Command::Stop);
                }
            }
            proof {
                assert(crate::command::has_stop(t.controller.sent@));
            }
            t.pump();
            self.tracks.insert(i, t);
            i = i + 1;
        }
    }

    /// One view per track, in index order — the order is stable and equal
    /// to construction order. Pure: the session is not changed.
    pub fn render_state(&self) -> (r: Vec<TrackView>)
        requires
            self.wf(),
        ensures
            r@.len() == self.tracks@.len(),
            forall|i: int| 0 <= i < self.tracks@.len()
                ==> (#[trigger] r@[i]).label@ == self.tracks@[i].controller.label@,
            forall|i: int| 0 <= i < self.tracks@.len()
                ==> (#[trigger] r@[i]).is_playing
                    == self.tracks@[i].controller.is_playing,
            forall|i: int| 0 <= i < self.tracks@.len()
                ==> (#[trigger] r@[i]).volume == self.tracks@[i].controller.volume,
    {
        let mut r: Vec<TrackView> = Vec::new();
        let mut i: usize = 0;
        while i < self.tracks.len()
            invariant
                self.wf(),
                i <= self.tracks@.len(),
                r@.len() == i,
                forall|j: int| 0 <= j < i
                    ==> (#[trigger] r@[j]).label@ == self.tracks@[j].controller.label@,
                forall|j: int| 0 <= j < i
                    ==> (#[trigger] r@[j]).is_playing
                        == self.tracks@[j].controller.is_playing,
                forall|j: int| 0 <= j < i
                    ==> (#[trigger] r@[j]).volume == self.tracks@[j].controller.volume,
            decreases self.tracks@.len() - i,
        {
            let view = TrackView {
                label: self.tracks[i].controller.label.clone(),
                is_playing: self.tracks[i].controller.is_playing,
                volume: self.tracks[i].controller.volume,
            };
            r.push(view);
            i = i + 1;
        }
        r
    }
}

} // verus!
