//! Commands and volume levels.
//!
//! A volume is a fixed-point fraction of full scale: `permille` thousandths,
//! so `0` is silence and [`VOLUME_SCALE`] is full volume. Out-of-range raw
//! values are clamped to full scale at construction, so a command can only
//! ever carry an in-range level.

use vstd::prelude::*;

verus! {

/// Number of permille steps in full volume.
pub const VOLUME_SCALE: u16 = 1000;

/// A volume level in `[0, VOLUME_SCALE]` permille of full scale.
#[derive(Clone, Copy, PartialEq, Eq, Structural, Debug)]
pub struct Volume {
    pub permille: u16,
}

impl Volume {
    /// The level is within the representable range `[0, 1]` of full scale.
    pub open spec fn valid(self) -> bool {
        self.permille <= VOLUME_SCALE
    }

    /// Builds a volume from a raw permille count, clamping anything above
    /// full scale down to full scale.
    pub fn new(permille: u16) -> (v: Volume)
        ensures
            v.valid(),
            permille <= VOLUME_SCALE ==> v.permille == permille,
            permille > VOLUME_SCALE ==> v.permille == VOLUME_SCALE,
    {
        if permille <= VOLUME_SCALE {
            Volume { permille }
        } else {
            Volume { permille: VOLUME_SCALE }
        }
    }

    /// Full volume, the level a freshly constructed stream plays at.
    pub fn full() -> (v: Volume)
        ensures
            v == Volume::full_spec(),
    {
        Volume { permille: VOLUME_SCALE }
    }

    /// Full volume as a specification-level constant.
    pub open spec fn full_spec() -> Volume {
        Volume { permille: VOLUME_SCALE }
    }
}

/// The only mutating operations on a track.
#[derive(Clone, Copy, PartialEq, Eq, Structural, Debug)]
pub enum Command {
    /// Resume the looping stream.
    Play,
    /// Suspend the looping stream, keeping its position.
    Pause,
    /// Terminate the track's worker and release its stream.
    Stop,
    /// Set the stream's volume; orthogonal to the play state.
    ChangeVolume(Volume),
}

impl Command {
    /// Any volume the command carries is in range.
    pub open spec fn valid(self) -> bool {
        match self {
            Command::ChangeVolume(v) => v.valid(),
            _ => true,
        }
    }

    /// Play, Pause and Stop change the play state; ChangeVolume does not.
    pub open spec fn is_transport(self) -> bool {
        self == Command::Play || self == Command::Pause || self == Command::Stop
    }
}

/// Every command in the history carries an in-range volume.
pub open spec fn all_valid(h: Seq<Command>) -> bool {
    forall|i: int| 0 <= i < h.len() ==> h[i].valid()
}

/// Some command in the history is Stop.
pub open spec fn has_stop(h: Seq<Command>) -> bool {
    exists|i: int| 0 <= i < h.len() && h[i] == Command::Stop
}

/// Stop, if present, is the last command: nothing is accepted after it.
pub open spec fn stop_terminal(h: Seq<Command>) -> bool {
    forall|i: int| 0 <= i < h.len() && h[i] == Command::Stop ==> i == h.len() - 1
}

/// Whether a track is playing after the whole history has been applied to
/// it: true exactly when the most recent transport command was Play.
/// A track never auto-plays, so an empty history means paused.
pub open spec fn playing_after(h: Seq<Command>) -> bool
    decreases h.len(),
{
    if h.len() == 0 {
        false
    } else {
        match h.last() {
            Command::Play => true,
            Command::Pause => false,
            Command::Stop => false,
            Command::ChangeVolume(_) => playing_after(h.drop_last()),
        }
    }
}

/// The most recent transport command in the history is a Play: some Play
/// occurs and no Play, Pause or Stop comes after it.
pub open spec fn last_transport_is_play(h: Seq<Command>) -> bool {
    exists|i: int| 0 <= i < h.len() && (#[trigger] h[i]) == Command::Play
        && (forall|j: int| i < j < h.len() ==> !(#[trigger] h[j]).is_transport())
}

/// State-flag correctness: after any command history, a track counts as
/// playing exactly when the most recent Play/Pause/Stop in the history is
/// a Play. Volume changes are orthogonal and never disturb the flag.
pub proof fn lemma_playing_iff_last_transport_is_play(h: Seq<Command>)
    ensures
        playing_after(h) <==> last_transport_is_play(h),
    decreases h.len(),
{
    if h.len() == 0 {
    } else {
        let n = h.len() - 1;
        let hp = h.drop_last();
        match h.last() {
            Command::Play => {
                assert(h[n] == Command::Play);
                assert(last_transport_is_play(h));
            }
            Command::Pause => {
                if last_transport_is_play(h) {
                    let i = choose|i: int| 0 <= i < h.len() && (#[trigger] h[i])
                        == Command::Play && (forall|j: int| i < j < h.len()
                            ==> !(#[trigger] h[j]).is_transport());
                    assert(h[n].is_transport());
                    if i == n {
                        assert(h[n] == Command::Play);
                    }
                    assert(false);
                }
            }
            Command::Stop => {
                if last_transport_is_play(h) {
                    let i = choose|i: int| 0 <= i < h.len() && (#[trigger] h[i])
                        == Command::Play && (forall|j: int| i < j < h.len()
                            ==> !(#[trigger] h[j]).is_transport());
                    assert(h[n].is_transport());
                    if i == n {
                        assert(h[n] == Command::Play);
                    }
                    assert(false);
                }
            }
            Command::ChangeVolume(_) => {
                lemma_playing_iff_last_transport_is_play(hp);
                if last_transport_is_play(hp) {
                    let i = choose|i: int| 0 <= i < hp.len() && (#[trigger] hp[i])
                        == Command::Play && (forall|j: int| i < j < hp.len()
                            ==> !(#[trigger] hp[j]).is_transport());
                    assert(h[i] == Command::Play);
                    assert forall|j: int| i < j < h.len() implies !(#[trigger] h[
                        j]).is_transport() by {
                        if j < n {
                            assert(!hp[j].is_transport());
                        } else {
                            assert(h[j] == h.last());
                        }
                    };
                    assert(last_transport_is_play(h));
                }
                if last_transport_is_play(h) {
                    let i = choose|i: int| 0 <= i < h.len() && (#[trigger] h[i])
                        == Command::Play && (forall|j: int| i < j < h.len()
                            ==> !(#[trigger] h[j]).is_transport());
                    if i == n {
                        assert(h[n] == h.last());
                        assert(false);
                    }
                    assert(hp[i] == Command::Play);
                    assert forall|j: int| i < j < hp.len() implies !(#[trigger] hp[
                        j]).is_transport() by {
                        assert(hp[j] == h[j]);
                    };
                    assert(last_transport_is_play(hp));
                }
            }
        }
    }
}

/// The last commanded volume in the history, or `initial` if no
/// ChangeVolume occurs in it.
pub open spec fn volume_after(h: Seq<Command>, initial: Volume) -> Volume
    decreases h.len(),
{
    if h.len() == 0 {
        initial
    } else {
        match h.last() {
            Command::ChangeVolume(v) => v,
            _ => volume_after(h.drop_last(), initial),
        }
    }
}

} // verus!
