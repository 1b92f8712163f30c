use chezwizper::audio::{AudioError, AudioStreamManager, RecordingState};

fn manager() -> AudioStreamManager<u32, f32> {
    AudioStreamManager::new(true).unwrap()
}

#[test]
fn new_without_device_is_unavailable() {
    let r = AudioStreamManager::<u32, f32>::new(false);
    assert!(matches!(r, Err(AudioError::DeviceUnavailable)));
}

#[test]
fn new_manager_is_idle_and_empty() {
    let m = manager();
    assert_eq!(m.state(), RecordingState::Idle);
    assert!(!m.has_stream());
    assert!(m.samples().is_empty());
}

#[test]
fn stop_while_idle_is_not_recording() {
    let mut m = manager();
    assert_eq!(m.stop_recording(), Err(AudioError::NotRecording));
    assert_eq!(m.state(), RecordingState::Idle);
}

#[test]
fn start_while_recording_is_already_recording() {
    let mut m = manager();
    assert_eq!(m.start_recording(|| Some(1)), Ok(()));
    assert_eq!(m.state(), RecordingState::Recording);
    assert!(m.has_stream());
    let mut asked = false;
    assert_eq!(
        m.start_recording(|| {
            asked = true;
            Some(2)
        }),
        Err(AudioError::AlreadyRecording)
    );
    assert!(!asked);
    assert_eq!(m.state(), RecordingState::Recording);
}

#[test]
fn second_stop_before_finish_is_already_stopping() {
    let mut m = manager();
    m.start_recording(|| Some(1)).unwrap();
    assert!(m.append_samples(vec![0.25, -0.5]));
    assert_eq!(m.stop_recording(), Ok(()));
    assert_eq!(m.state(), RecordingState::Stopping);
    assert!(!m.has_stream());
    assert_eq!(m.samples(), &vec![0.25f32, -0.5]);
    assert_eq!(m.stop_recording(), Err(AudioError::AlreadyStopping));
    assert_eq!(m.start_recording(|| Some(2)), Err(AudioError::AlreadyRecording));
    assert_eq!(m.state(), RecordingState::Stopping);
    assert_eq!(m.finish_stop(true), Ok(()));
    assert_eq!(m.state(), RecordingState::Idle);
    assert!(m.samples().is_empty());
}

#[test]
fn stop_without_samples_fails_and_returns_to_idle() {
    let mut m = manager();
    m.start_recording(|| Some(1)).unwrap();
    assert_eq!(m.stop_recording(), Err(AudioError::NoSamplesRecorded));
    assert_eq!(m.state(), RecordingState::Idle);
    assert!(!m.has_stream());
    assert_eq!(m.start_recording(|| Some(2)), Ok(()));
}

#[test]
fn failed_open_leaves_the_session_idle() {
    let mut m = manager();
    assert_eq!(m.start_recording(|| None), Err(AudioError::DeviceUnavailable));
    assert_eq!(m.state(), RecordingState::Idle);
    assert!(!m.has_stream());
    assert_eq!(m.start_recording(|| Some(3)), Ok(()));
}

#[test]
fn failed_write_still_returns_to_idle() {
    let mut m = manager();
    m.start_recording(|| Some(1)).unwrap();
    m.append_samples(vec![1.0]);
    m.stop_recording().unwrap();
    assert_eq!(m.finish_stop(false), Err(AudioError::WriteFailed));
    assert_eq!(m.state(), RecordingState::Idle);
    assert!(m.samples().is_empty());
    assert_eq!(m.start_recording(|| Some(2)), Ok(()));
}

#[test]
fn finish_stop_out_of_turn_is_refused() {
    let mut m = manager();
    assert_eq!(m.finish_stop(true), Err(AudioError::NotRecording));
    m.start_recording(|| Some(1)).unwrap();
    m.append_samples(vec![1.0]);
    assert_eq!(m.finish_stop(true), Err(AudioError::NotRecording));
    assert_eq!(m.state(), RecordingState::Recording);
    assert_eq!(m.samples().len(), 1);
}

#[test]
fn samples_are_dropped_unless_recording() {
    let mut m = manager();
    assert!(!m.append_samples(vec![1.0, 2.0]));
    assert!(m.samples().is_empty());
    m.start_recording(|| Some(1)).unwrap();
    assert!(m.append_samples(vec![1.0]));
    assert!(m.append_samples(vec![2.0, 3.0]));
    assert_eq!(m.samples(), &vec![1.0f32, 2.0, 3.0]);
    m.stop_recording().unwrap();
    assert!(!m.append_samples(vec![4.0]));
    assert_eq!(m.samples(), &vec![1.0f32, 2.0, 3.0]);
}

#[test]
fn a_new_recording_starts_with_an_empty_buffer() {
    let mut m = manager();
    m.start_recording(|| Some(1)).unwrap();
    m.append_samples(vec![9.0, 9.0, 9.0]);
    m.stop_recording().unwrap();
    m.finish_stop(false).unwrap_err();
    m.start_recording(|| Some(2)).unwrap();
    assert!(m.samples().is_empty());
    m.append_samples(vec![0.5]);
    assert_eq!(m.samples(), &vec![0.5f32]);
}

#[test]
fn stream_is_held_only_while_recording() {
    let mut m = manager();
    let mut step = 0;
    while step < 40 {
        match step % 5 {
            0 => {
                let _ = m.start_recording(|| if step % 3 == 0 { None } else { Some(step) });
            }
            1 => {
                m.append_samples(vec![step as f32]);
            }
            2 => {
                let _ = m.stop_recording();
            }
            3 => {
                let _ = m.stop_recording();
            }
            _ => {
                let _ = m.finish_stop(step % 2 == 0);
            }
        }
        assert_eq!(m.has_stream(), m.state() == RecordingState::Recording);
        if m.state() == RecordingState::Idle {
            assert!(m.samples().is_empty());
        }
        step += 1;
    }
}

#[test]
fn dropping_the_manager_drops_the_stream() {
    let handle = std::rc::Rc::new(());
    let mut m: AudioStreamManager<std::rc::Rc<()>, f32> = AudioStreamManager::new(true).unwrap();
    let for_stream = handle.clone();
    m.start_recording(move || Some(for_stream)).unwrap();
    assert_eq!(std::rc::Rc::strong_count(&handle), 2);
    drop(m);
    assert_eq!(std::rc::Rc::strong_count(&handle), 1);
}

#[test]
fn stopping_drops_the_stream() {
    let handle = std::rc::Rc::new(());
    let mut m: AudioStreamManager<std::rc::Rc<()>, f32> = AudioStreamManager::new(true).unwrap();
    let for_stream = handle.clone();
    m.start_recording(move || Some(for_stream)).unwrap();
    m.append_samples(vec![0.1]);
    m.stop_recording().unwrap();
    assert_eq!(std::rc::Rc::strong_count(&handle), 1);
}

#[test]
fn test_audio_stream_manager_creation() {
    let _manager = AudioStreamManager::<u32, f32>::new(true);
}
