//! The audio stream handle: the per-track playback capability.
//!
//! The real backend (decoder, output device) lives outside this crate; what
//! the control logic needs of it is a narrow contract: an
//! infinitely-looping stream that starts paused and accepts play, pause and
//! set-volume with immediate effect. This type is the crate's model of that
//! capability: it records every primitive operation in call order, so that
//! contracts (and tests) can speak about exactly which calls the backend
//! received and in which order.

use vstd::prelude::*;

use crate::command::{Command, Volume};

verus! {

/// A primitive operation on the playback backend, as the backend sees it.
#[derive(Clone, Copy, PartialEq, Eq, Structural, Debug)]
pub enum AudioOp {
    /// Resume playback.
    Play,
    /// Suspend playback.
    Pause,
    /// Set the stream volume.
    SetVolume(Volume),
}

/// The backend operations that applying a command history in order produces:
/// one operation per command, in the same order, except Stop, which ends the
/// worker instead of reaching the backend.
pub open spec fn ops_of(h: Seq<Command>) -> Seq<AudioOp>
    decreases h.len(),
{
    if h.len() == 0 {
        Seq::empty()
    } else {
        ops_of(h.drop_last()) + match h.last() {
            Command::Play => seq![AudioOp::Play],
            Command::Pause => seq![AudioOp::Pause],
            Command::Stop => Seq::empty(),
            Command::ChangeVolume(v) => seq![AudioOp::SetVolume(v)],
        }
    }
}

/// One decoded, infinitely-looping stream bound to an output device.
///
/// Constructed paused at full volume, with the looping established once at
/// construction. Records each operation applied to it; `release` ends its
/// life, after which no further operation is allowed.
pub struct AudioStreamHandle {
    /// Identifies the audio asset this stream was decoded from.
    pub source_path: String,
    /// Every primitive operation applied so far, in call order.
    pub ops: Vec<AudioOp>,
    /// Whether the stream is currently audible.
    pub playing: bool,
    /// The stream's current volume.
    pub volume: Volume,
    /// Whether the stream has been released (torn down).
    pub released: bool,
}

impl AudioStreamHandle {
    /// The volume is in range.
    pub open spec fn wf(self) -> bool {
        self.volume.valid()
    }

    /// Binds a new looping stream for `source_path`: paused, full volume,
    /// nothing applied yet.
    pub fn new(source_path: String) -> (h: AudioStreamHandle)
        ensures
            h.wf(),
            h.source_path@ == source_path@,
            h.ops@ == Seq::<AudioOp>::empty(),
            !h.playing,
            h.volume == Volume::full_spec(),
            !h.released,
    {
        AudioStreamHandle {
            source_path,
            ops: Vec::new(),
            playing: false,
            volume: Volume::full(),
            released: false,
        }
    }

    /// Resumes playback.
    pub fn play(&mut self)
        requires
            old(self).wf(),
            !old(self).released,
        ensures
            final(self).wf(),
            final(self).ops@ == old(self).ops@.push(AudioOp::Play),
            final(self).playing,
            final(self).volume == old(self).volume,
            final(self).source_path == old(self).source_path,
            !final(self).released,
    {
        self.ops.push(AudioOp::Play);
        self.playing = true;
    }

    /// Suspends playback, keeping the stream's position.
    pub fn pause(&mut self)
        requires
            old(self).wf(),
            !old(self).released,
        ensures
            final(self).wf(),
            final(self).ops@ == old(self).ops@.push(AudioOp::Pause),
            !final(self).playing,
            final(self).volume == old(self).volume,
            final(self).source_path == old(self).source_path,
            !final(self).released,
    {
        self.ops.push(AudioOp::Pause);
        self.playing = false;
    }

    /// Sets the stream volume; the play state is untouched.
    pub fn set_volume(&mut self, v: Volume)
        requires
            old(self).wf(),
            !old(self).released,
            v.valid(),
        ensures
            final(self).wf(),
            final(self).ops@ == old(self).ops@.push(AudioOp::SetVolume(v)),
            final(self).playing == old(self).playing,
            final(self).volume == v,
            final(self).source_path == old(self).source_path,
            !final(self).released,
    {
        self.ops.push(AudioOp::SetVolume(v));
        self.volume = v;
    }

    /// Releases the stream: playback ends and no further operation reaches
    /// the backend.
    pub fn release(&mut self)
        requires
            old(self).wf(),
            !old(self).released,
        ensures
            final(self).wf(),
            final(self).ops@ == old(self).ops@,
            !final(self).playing,
            final(self).volume == old(self).volume,
            final(self).source_path == old(self).source_path,
            final(self).released,
    {
        self.playing = false;
        self.released = true;
    }
}

/// Applying one more command appends exactly its backend operation, and
/// Stop appends none.
pub proof fn lemma_ops_of_push(h: Seq<Command>, c: Command)
    ensures
        c == Command::Stop ==> ops_of(h.push(c)) == ops_of(h),
        c == Command::Play ==> ops_of(h.push(c)) == ops_of(h).push(AudioOp::Play),
        c == Command::Pause ==> ops_of(h.push(c)) == ops_of(h).push(AudioOp::Pause),
        forall|v: Volume| c == Command::ChangeVolume(v) ==> ops_of(h.push(c))
            == ops_of(h).push(AudioOp::SetVolume(v)),
{
    assert(h.push(c).drop_last() =~= h);
    assert(h.push(c).last() == c);
    match c {
        Command::Play => {
            assert(ops_of(h) + seq![AudioOp::Play] =~= ops_of(h).push(AudioOp::Play));
        }
        Command::Pause => {
            assert(ops_of(h) + seq![AudioOp::Pause] =~= ops_of(h).push(AudioOp::Pause));
        }
        Command::Stop => {
            assert(ops_of(h) + Seq::<AudioOp>::empty() =~= ops_of(h));
        }
        Command::ChangeVolume(v) => {
            assert(ops_of(h) + seq![AudioOp::SetVolume(v)]
                =~= ops_of(h).push(AudioOp::SetVolume(v)));
        }
    }
}

} // verus!
