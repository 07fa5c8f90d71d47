use miso::command::{Command, Volume, VOLUME_SCALE};
use miso::controller::TrackError;
use miso::handle::AudioOp;
use miso::session::{MixerSession, TrackSpec};
use miso::track::Track;
use miso::worker::WorkerState;

fn spec_of(path: &str, label: &str) -> TrackSpec {
    TrackSpec { source_path: path.to_string(), label: label.to_string() }
}

fn four_track_session() -> MixerSession {
    MixerSession::new(&vec![
        spec_of("birds.wav", "Birds"),
        spec_of("waves.wav", "Waves"),
        spec_of("forest_wind.wav", "Forest Wind"),
        spec_of("fan.wav", "Fan"),
    ])
}

#[test]
fn volume_in_range_is_kept() {
    assert_eq!(Volume::new(0).permille, 0);
    assert_eq!(Volume::new(300).permille, 300);
    assert_eq!(Volume::new(VOLUME_SCALE).permille, VOLUME_SCALE);
}

#[test]
fn volume_out_of_range_is_clamped() {
    assert_eq!(Volume::new(VOLUME_SCALE + 1).permille, VOLUME_SCALE);
    assert_eq!(Volume::new(u16::MAX).permille, VOLUME_SCALE);
}

#[test]
fn new_track_starts_paused_at_full_volume() {
    let t = Track::new("birds.wav".to_string(), "Birds".to_string());
    assert!(!t.controller.is_playing);
    assert!(t.controller.live);
    assert_eq!(t.controller.volume, Volume::full());
    assert!(!t.worker.handle.playing);
    assert!(!t.worker.handle.released);
    assert_eq!(t.worker.state, WorkerState::Paused);
    assert_eq!(t.worker.handle.ops, vec![]);
    assert_eq!(t.controller.label, "Birds");
    assert_eq!(t.worker.handle.source_path, "birds.wav");
}

#[test]
fn change_volume_reaches_handle_exactly_once() {
    let mut t = Track::new("birds.wav".to_string(), "Birds".to_string());
    let v = Volume::new(300);
    assert_eq!(t.send(Command::ChangeVolume(v)), Ok(()));
    t.pump();
    assert_eq!(t.worker.handle.ops, vec![AudioOp::SetVolume(v)]);
    assert_eq!(t.worker.handle.volume, v);
    assert_eq!(t.controller.volume, v);
}

#[test]
fn worker_applies_commands_in_send_order() {
    let mut t = Track::new("waves.wav".to_string(), "Waves".to_string());
    let v1 = Volume::new(250);
    let v2 = Volume::new(750);
    assert_eq!(t.send(Command::Play), Ok(()));
    assert_eq!(t.send(Command::ChangeVolume(v1)), Ok(()));
    assert_eq!(t.send(Command::Pause), Ok(()));
    assert_eq!(t.send(Command::ChangeVolume(v2)), Ok(()));
    assert_eq!(t.send(Command::Play), Ok(()));
    t.pump();
    assert_eq!(
        t.worker.handle.ops,
        vec![
            AudioOp::Play,
            AudioOp::SetVolume(v1),
            AudioOp::Pause,
            AudioOp::SetVolume(v2),
            AudioOp::Play,
        ]
    );
    assert!(t.worker.handle.playing);
    assert_eq!(t.worker.handle.volume, v2);
}

#[test]
fn play_flag_follows_last_transport_command() {
    let mut t = Track::new("fan.wav".to_string(), "Fan".to_string());
    assert!(!t.controller.is_playing);
    t.send(Command::Play).unwrap();
    assert!(t.controller.is_playing);
    t.send(Command::ChangeVolume(Volume::new(100))).unwrap();
    assert!(t.controller.is_playing);
    t.send(Command::Pause).unwrap();
    assert!(!t.controller.is_playing);
    t.send(Command::Play).unwrap();
    assert!(t.controller.is_playing);
    t.send(Command::Stop).unwrap();
    assert!(!t.controller.is_playing);
}

#[test]
fn stopped_track_reports_unavailable() {
    let mut t = Track::new("fan.wav".to_string(), "Fan".to_string());
    assert_eq!(t.send(Command::Stop), Ok(()));
    assert_eq!(t.send(Command::Play), Err(TrackError::TrackUnavailable));
    t.pump();
    assert_eq!(t.worker.state, WorkerState::Terminated);
    assert!(t.worker.handle.released);
    assert_eq!(t.send(Command::Pause), Err(TrackError::TrackUnavailable));
    assert_eq!(t.worker.handle.ops, vec![]);
}

#[test]
fn out_of_range_dispatch_is_a_no_op() {
    let mut s = four_track_session();
    assert_eq!(s.dispatch(99, Command::Play), Ok(()));
    s.settle();
    let views = s.render_state();
    assert_eq!(views.len(), 4);
    for view in &views {
        assert!(!view.is_playing);
    }
    for t in &s.tracks {
        assert_eq!(t.worker.handle.ops, vec![]);
        assert_eq!(t.worker.state, WorkerState::Paused);
    }
}

#[test]
fn render_state_keeps_construction_order() {
    let s = four_track_session();
    let views = s.render_state();
    let labels: Vec<&str> = views.iter().map(|v| v.label.as_str()).collect();
    assert_eq!(labels, vec!["Birds", "Waves", "Forest Wind", "Fan"]);
    for view in &views {
        assert!(!view.is_playing);
        assert_eq!(view.volume, Volume::full());
    }
}

#[test]
fn tracks_are_independent() {
    let mut s = MixerSession::new(&vec![spec_of("a.wav", "A"), spec_of("b.wav", "B")]);
    assert_eq!(s.dispatch(1, Command::Play), Ok(()));
    assert_eq!(s.dispatch(0, Command::Play), Ok(()));
    assert_eq!(s.dispatch(0, Command::ChangeVolume(Volume::new(10))), Ok(()));
    assert_eq!(s.dispatch(1, Command::Pause), Ok(()));
    assert_eq!(s.dispatch(0, Command::Stop), Ok(()));
    assert_eq!(s.dispatch(1, Command::Play), Ok(()));
    s.settle();
    assert_eq!(
        s.tracks[1].worker.handle.ops,
        vec![AudioOp::Play, AudioOp::Pause, AudioOp::Play]
    );
    assert!(s.tracks[1].controller.is_playing);
    assert_eq!(s.tracks[1].worker.state, WorkerState::Playing);
    assert_eq!(s.tracks[0].worker.state, WorkerState::Terminated);
}

#[test]
fn shutdown_terminates_every_worker() {
    let mut s = four_track_session();
    s.dispatch(0, Command::Play).unwrap();
    s.dispatch(2, Command::ChangeVolume(Volume::new(400))).unwrap();
    s.dispatch(3, Command::Stop).unwrap();
    s.shutdown();
    for t in &s.tracks {
        assert_eq!(t.worker.state, WorkerState::Terminated);
        assert!(t.worker.handle.released);
        assert!(!t.worker.handle.playing);
        assert!(!t.controller.live);
        assert!(t.pending.is_empty());
    }
    assert_eq!(s.dispatch(0, Command::Play), Err(TrackError::TrackUnavailable));
}

#[test]
fn session_scenario_two_tracks() {
    let mut s = MixerSession::new(&vec![spec_of("a.wav", "A"), spec_of("b.wav", "B")]);
    let v = Volume::new(300);
    assert_eq!(s.dispatch(0, Command::Play), Ok(()));
    assert_eq!(s.dispatch(0, Command::ChangeVolume(v)), Ok(()));
    assert_eq!(s.dispatch(1, Command::Play), Ok(()));
    assert_eq!(s.dispatch(0, Command::Pause), Ok(()));
    s.settle();

    let views = s.render_state();
    assert_eq!(views.len(), 2);
    assert_eq!(views[0].label, "A");
    assert!(!views[0].is_playing);
    assert_eq!(views[0].volume, v);
    assert_eq!(views[1].label, "B");
    assert!(views[1].is_playing);
    assert_eq!(views[1].volume, Volume::full());

    assert_eq!(
        s.tracks[0].worker.handle.ops,
        vec![AudioOp::Play, AudioOp::SetVolume(v), AudioOp::Pause]
    );
    assert_eq!(s.tracks[1].worker.handle.ops, vec![AudioOp::Play]);
}
