//! One track: a controller, its worker, and the command queue between them.
//!
//! In a running application the queue is a single-producer single-consumer
//! channel and the worker drains it on its own execution unit. Here the
//! queue is explicit, so the asynchrony is visible in the state: `send`
//! enqueues (what the controller does at dispatch time), `pump` lets the
//! worker consume everything enqueued so far (what the worker's loop does
//! between commands). The well-formedness invariant ties the three
//! together: what the controller has accepted is exactly what the worker
//! has applied followed by what is still queued — the FIFO guarantee.

use vstd::prelude::*;

use crate::command::{Command, Volume, has_stop};
use crate::controller::{TrackController, TrackError};
use crate::handle::ops_of;
use crate::worker::{TrackWorker, WorkerState};

verus! {

/// One independently controllable looping audio channel.
pub struct Track {
    /// The front-facing handle callers issue commands through.
    pub controller: TrackController,
    /// The background unit owning the track's stream.
    pub worker: TrackWorker,
    /// Commands sent but not yet consumed by the worker, oldest first.
    pub pending: Vec<Command>,
}

impl Track {
    /// Controller, queue and worker agree: the accepted history is the
    /// applied history followed by the queue, and both ends are themselves
    /// well formed and speak of the same audio asset.
    pub open spec fn wf(self) -> bool {
        &&& self.controller.wf()
        &&& self.worker.wf()
        &&& self.controller.sent@ == self.worker.applied@ + self.pending@
        &&& self.worker.handle.source_path@ == self.controller.source_path@
    }

    /// The state every track starts in: nothing sent or applied, queue
    /// empty, paused, full volume, worker running.
    pub open spec fn is_initial(self) -> bool {
        &&& self.controller.sent@ == Seq::<Command>::empty()
        &&& self.worker.applied@ == Seq::<Command>::empty()
        &&& self.pending@ == Seq::<Command>::empty()
        &&& !self.controller.is_playing
        &&& self.controller.volume == Volume::full_spec()
        &&& self.controller.live
        &&& self.worker.state == WorkerState::Paused
    }

    /// What accepting `cmd` does to a live track: the command joins the
    /// queue and the history, the cached flags move as the command
    /// dictates, and the worker is untouched.
    pub open spec fn send_effect(pre: Track, post: Track, cmd: Command) -> bool {
        &&& post.worker == pre.worker
        &&& post.controller.label == pre.controller.label
        &&& post.controller.source_path == pre.controller.source_path
        &&& post.pending@ == pre.pending@.push(cmd)
        &&& post.controller.sent@ == pre.controller.sent@.push(cmd)
        &&& (post.controller.is_playing <==> (cmd == Command::Play
            || (cmd matches Command::ChangeVolume(_) && pre.controller.is_playing)))
        &&& post.controller.volume == (match cmd {
            Command::ChangeVolume(v) => v,
            _ => pre.controller.volume,
        })
        &&& (post.controller.live <==> cmd != Command::Stop)
    }

    /// Creates the track eagerly: the stream is constructed (looping,
    /// paused) and the worker started before this returns.
    pub fn new(source_path: String, label: String) -> (t: Track)
        ensures
            t.wf(),
            t.is_initial(),
            t.controller.label@ == label@,
            t.controller.source_path@ == source_path@,
    {
        let worker_path = source_path.clone();
        let controller = TrackController::new(source_path, label);
        let worker = TrackWorker::new(worker_path);
        let t = Track { controller, worker, pending: Vec::new() };
        proof {
            assert(t.worker.applied@ + t.pending@ =~= t.controller.sent@);
        }
        t
    }

    /// Sends one command: the controller updates its cached state and the
    /// command joins the queue, behind everything sent before it. The
    /// worker is not touched — forwarding is fire-and-forget. On a track
    /// whose worker is gone, nothing changes and the error says so.
    pub fn send(&mut self, cmd: Command) -> (r: Result<(), TrackError>)
        requires
            old(self).wf(),
            cmd.valid(),
        ensures
            final(self).wf(),
            final(self).worker == old(self).worker,
            final(self).controller.label == old(self).controller.label,
            final(self).controller.source_path == old(self).controller.source_path,
            old(self).controller.live ==> r == Ok::<(), TrackError>(())
                && Track::send_effect(*old(self), *final(self), cmd),
            !old(self).controller.live ==> r
                == Err::<(), TrackError>(TrackError::TrackUnavailable)
                && *final(self) == *old(self),
    {
        let r = self.controller.update(cmd);
        match r {
            Ok(()) => {
                self.pending.push(cmd);
                proof {
                    assert(self.controller.sent@
                        =~= self.worker.applied@ + self.pending@);
                }
                Ok(())
            }
            Err(e) => Err(e),
        }
    }

    /// Lets the worker drain its queue: every pending command is applied to
    /// the handle, oldest first, leaving the queue empty. The controller is
    /// untouched; afterwards the worker has applied exactly what the
    /// controller accepted, in send order.
    pub fn pump(&mut self)
        requires
            old(self).wf(),
        ensures
            final(self).wf(),
            final(self).controller == old(self).controller,
            final(self).pending@ == Seq::<Command>::empty(),
            final(self).worker.applied@
                == old(self).worker.applied@ + old(self).pending@,
            final(self).worker.applied@ == final(self).controller.sent@,
    {
        while self.pending.len() > 0
            invariant
                self.wf(),
                self.controller == old(self).controller,
                self.worker.applied@ + self.pending@
                    == old(self).worker.applied@ + old(self).pending@,
            decreases self.pending.len(),
        {
            proof {
                if has_stop(self.worker.applied@) {
                    let i = choose|i: int| 0 <= i < self.worker.applied@.len()
                        && self.worker.applied@[i] == Command::Stop;
                    assert(self.controller.sent@[i] == Command::Stop);
                    assert(i == self.controller.sent@.len() - 1);
                    assert(false);
                }
                assert(self.pending@[0] == self.controller.sent@[
                    self.worker.applied@.len() as int]);
            }
            let cmd = self.pending.remove(0);
            self.worker.apply(cmd);
            proof {
                assert(self.worker.applied@ + self.pending@
                    =~= old(self).worker.applied@ + old(self).pending@);
                assert(self.controller.sent@ =~= self.worker.applied@ + self.pending@);
            }
        }
        proof {
            assert(self.worker.applied@ =~= self.worker.applied@ + self.pending@);
            assert(self.worker.applied@
                =~= old(self).worker.applied@ + old(self).pending@);
        }
    }
}

/// FIFO per track: at any well-formed point, the worker has applied
/// exactly a prefix of the commands the controller accepted — the same
/// commands, in the same relative order they were sent — and the backend
/// has received exactly those commands' operations, in that order.
pub proof fn lemma_fifo_per_track(t: Track)
    requires
        t.wf(),
    ensures
        t.worker.applied@ == t.controller.sent@.take(t.worker.applied@.len() as int),
        t.worker.handle.ops@ == ops_of(t.worker.applied@),
{
    assert(t.controller.sent@.take(t.worker.applied@.len() as int)
        =~= t.worker.applied@);
}

/// Independence across tracks: once its queue is drained, what a track's
/// backend has observed — the operations, their order, the resulting play
/// state and volume, and whether the worker still runs — is a function of
/// that track's own accepted commands alone. Two tracks whose controllers
/// accepted the same commands are indistinguishable at the backend,
/// whatever was sent to any other track in between.
pub proof fn lemma_track_outcome_from_own_history(a: Track, b: Track)
    requires
        a.wf(),
        b.wf(),
        a.pending@.len() == 0,
        b.pending@.len() == 0,
        a.controller.sent@ == b.controller.sent@,
    ensures
        a.worker.handle.ops@ == b.worker.handle.ops@,
        a.worker.handle.playing == b.worker.handle.playing,
        a.worker.handle.volume == b.worker.handle.volume,
        a.worker.handle.released == b.worker.handle.released,
        a.worker.state == b.worker.state,
{
    assert(a.worker.applied@ =~= a.controller.sent@);
    assert(b.worker.applied@ =~= b.controller.sent@);
}

} // verus!
