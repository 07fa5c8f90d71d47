//! The per-track worker: owns one audio stream handle and applies commands
//! to it one at a time, in exactly the order they arrive.
//!
//! In a running application the worker is a dedicated background execution
//! unit draining a single-consumer queue; here it is the decision core of
//! that unit. `apply` is what one loop iteration does to the handle, and the
//! ghost `applied` history ties the handle's recorded operations to the
//! commands consumed so far.

use vstd::prelude::*;

use crate::command::{Command, Volume, all_valid, has_stop, playing_after, stop_terminal,
    volume_after};
use crate::handle::{AudioOp, AudioStreamHandle, lemma_ops_of_push, ops_of};

verus! {

/// The worker's life cycle. Terminated is absorbing: the only way out of
/// the running states is Stop (or the channel closing, which the running
/// loop treats identically).
#[derive(Clone, Copy, PartialEq, Eq, Structural, Debug)]
pub enum WorkerState {
    /// Stream is primed and looping but inaudible. The initial state.
    Paused,
    /// Stream is audible.
    Playing,
    /// The worker has exited and released its handle.
    Terminated,
}

/// One track's worker: the sole owner of that track's stream handle.
pub struct TrackWorker {
    /// The stream this worker exclusively owns and mutates.
    pub handle: AudioStreamHandle,
    /// Where the worker stands in its life cycle.
    pub state: WorkerState,
    /// Every command this worker has consumed, in arrival order.
    pub applied: Ghost<Seq<Command>>,
}

impl TrackWorker {
    /// The worker's state, handle and applied history agree:
    /// the handle has seen exactly the operations of the applied commands,
    /// in order, and play state, volume and termination all follow from
    /// that history.
    pub open spec fn wf(self) -> bool {
        &&& self.handle.wf()
        &&& all_valid(self.applied@)
        &&& stop_terminal(self.applied@)
        &&& self.handle.ops@ == ops_of(self.applied@)
        &&& self.handle.playing == playing_after(self.applied@)
        &&& self.handle.volume == volume_after(self.applied@, Volume::full_spec())
        &&& (self.state == WorkerState::Terminated <==> has_stop(self.applied@))
        &&& (self.handle.released <==> has_stop(self.applied@))
        &&& (self.state == WorkerState::Playing <==> !has_stop(self.applied@)
            && playing_after(self.applied@))
        &&& (self.state == WorkerState::Paused <==> !has_stop(self.applied@)
            && !playing_after(self.applied@))
    }

    /// Starts a worker for `source_path`: the stream is constructed looping
    /// and begins paused — a track never auto-plays on creation.
    pub fn new(source_path: String) -> (w: TrackWorker)
        ensures
            w.wf(),
            w.applied@ == Seq::<Command>::empty(),
            w.state == WorkerState::Paused,
            w.handle.source_path@ == source_path@,
    {
        let handle = AudioStreamHandle::new(source_path);
        TrackWorker { handle, state: WorkerState::Paused, applied: Ghost(Seq::empty()) }
    }

    /// Consumes one command, exactly as one iteration of the worker loop
    /// does: ChangeVolume, Play and Pause become the matching primitive
    /// operation on the handle; Stop exits the loop, releasing the handle
    /// and terminating the worker.
    pub fn apply(&mut self, cmd: Command)
        requires
            old(self).wf(),
            cmd.valid(),
            old(self).state != WorkerState::Terminated,
        ensures
            final(self).wf(),
            final(self).applied@ == old(self).applied@.push(cmd),
            final(self).handle.source_path == old(self).handle.source_path,
            cmd == Command::Play ==> final(self).handle.ops@
                == old(self).handle.ops@.push(AudioOp::Play),
            cmd == Command::Pause ==> final(self).handle.ops@
                == old(self).handle.ops@.push(AudioOp::Pause),
            forall|v: Volume| cmd == Command::ChangeVolume(v) ==> final(self).handle.ops@
                == old(self).handle.ops@.push(AudioOp::SetVolume(v)),
            cmd == Command::Stop ==> final(self).handle.ops@ == old(self).handle.ops@
                && final(self).state == WorkerState::Terminated
                && final(self).handle.released,
            cmd != Command::Stop ==> final(self).state != WorkerState::Terminated,
    {
        proof {
            lemma_ops_of_push(self.applied@, cmd);
            assert(!has_stop(self.applied@));
        }
        match cmd {
            Command::ChangeVolume(v) => {
                self.handle.set_volume(v);
            }
            Command::Play => {
                self.handle.play();
                self.state = WorkerState::Playing;
            }
            Command::Pause => {
                self.handle.pause();
                self.state = WorkerState::Paused;
            }
            Command::Stop => {
                self.handle.release();
                self.state = WorkerState::Terminated;
            }
        }
        self.applied = Ghost(self.applied@.push(cmd));
        proof {
            let h = self.applied@;
            assert(h.drop_last() =~= old(self).applied@);
            assert(h.last() == cmd);
            assert(forall|i: int| 0 <= i < h.len() - 1 ==> h[i] == old(self).applied@[i]);
        }
    }
}

} // verus!
