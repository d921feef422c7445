use goxlr_audio_helper::channels::{capture_offsets, render_offsets};
use goxlr_audio_helper::router::{Direction, Router, RouterError, SessionState};

fn running_router() -> Router {
    let mut rt = Router::new(10, capture_offsets(), 21, render_offsets(), 1024).unwrap();
    rt.wire().unwrap();
    for c in 0..5 {
        rt.mark_registered(Direction::Capture, c).unwrap();
    }
    for c in 0..3 {
        rt.mark_registered(Direction::Render, c).unwrap();
    }
    rt.start().unwrap();
    rt
}

#[test]
fn lifecycle_reaches_running() {
    let rt = running_router();
    assert_eq!(rt.session_state(), SessionState::Running);
    assert_eq!(rt.channel_count(Direction::Capture), 5);
    assert_eq!(rt.channel_count(Direction::Render), 3);
}

#[test]
fn invalid_tables_are_fatal() {
    // overlapping channels
    let r = Router::new(10, vec![0, 1], 21, vec![0], 1024);
    assert!(matches!(r, Err(RouterError::InvalidTable)));
    // a channel whose two slots do not fit the wide frame
    let r = Router::new(10, vec![9], 21, vec![0], 1024);
    assert!(matches!(r, Err(RouterError::InvalidTable)));
}

#[test]
fn transitions_are_strictly_forward() {
    let mut rt = Router::new(10, capture_offsets(), 21, render_offsets(), 1024).unwrap();
    assert_eq!(rt.session_state(), SessionState::Unconfigured);
    // starting or stopping before wiring is refused
    assert_eq!(rt.start(), Err(RouterError::WrongState));
    assert_eq!(rt.stop(), Err(RouterError::WrongState));
    assert_eq!(rt.mark_registered(Direction::Capture, 0), Err(RouterError::WrongState));
    rt.wire().unwrap();
    assert_eq!(rt.session_state(), SessionState::Wired);
    // wiring twice is refused
    assert_eq!(rt.wire(), Err(RouterError::WrongState));
}

#[test]
fn partial_registration_cannot_start() {
    let mut rt = Router::new(10, capture_offsets(), 21, render_offsets(), 1024).unwrap();
    rt.wire().unwrap();
    for c in 0..5 {
        rt.mark_registered(Direction::Capture, c).unwrap();
    }
    rt.mark_registered(Direction::Render, 0).unwrap();
    // two render channels still unregistered
    assert_eq!(rt.start(), Err(RouterError::RegistrationIncomplete));
    assert_eq!(rt.session_state(), SessionState::Wired);
}

#[test]
fn unknown_channel_is_refused() {
    let mut rt = Router::new(10, capture_offsets(), 21, render_offsets(), 1024).unwrap();
    rt.wire().unwrap();
    assert_eq!(rt.mark_registered(Direction::Capture, 5), Err(RouterError::UnknownChannel));
    assert_eq!(rt.mark_registered(Direction::Render, 3), Err(RouterError::UnknownChannel));
}

#[test]
fn callbacks_route_samples_between_directions() {
    let mut rt = running_router();

    // capture direction: endpoint 1 ("Game", offsets 2 and 3) pushes one
    // frame; the hardware playback callback must place it at its offsets
    rt.on_endpoint_capture(1, &vec![210, 211], 1).unwrap();
    let mut wide = vec![0u32; 10];
    rt.on_hardware_render(&mut wide, 1).unwrap();
    assert_eq!(wide, vec![0, 0, 210, 211, 0, 0, 0, 0, 0, 0]);

    // render direction: one wide hardware frame of 21 samples; channel 0
    // ("ChatMic") owns offsets 2 and 3
    let mut frame = vec![0u32; 21];
    for (i, v) in frame.iter_mut().enumerate() {
        *v = 500 + i as u32;
    }
    rt.on_hardware_capture(&frame, 1).unwrap();
    let mut endpoint = vec![0u32; 2];
    rt.on_endpoint_render(0, &mut endpoint, 1).unwrap();
    assert_eq!(endpoint, vec![502, 503]);
    // channel 2 ("StreamMix") owns offsets 0 and 1
    let mut endpoint = vec![0u32; 2];
    rt.on_endpoint_render(2, &mut endpoint, 1).unwrap();
    assert_eq!(endpoint, vec![500, 501]);
}

#[test]
fn callback_buffer_mismatch_is_refused() {
    let mut rt = running_router();
    assert_eq!(rt.on_endpoint_capture(0, &vec![1, 2, 3], 1), Err(RouterError::BufferSizeMismatch));
    let mut wide = vec![0u32; 9];
    assert_eq!(rt.on_hardware_render(&mut wide, 1), Err(RouterError::BufferSizeMismatch));
    assert_eq!(rt.on_hardware_capture(&vec![0u32; 20], 1), Err(RouterError::BufferSizeMismatch));
    let mut endpoint = vec![0u32; 3];
    assert_eq!(rt.on_endpoint_render(0, &mut endpoint, 1), Err(RouterError::BufferSizeMismatch));
    // a refused callback leaves the buffer untouched
    assert_eq!(endpoint, vec![0, 0, 0]);
}

#[test]
fn callback_unknown_channel_is_refused() {
    let mut rt = running_router();
    assert_eq!(rt.on_endpoint_capture(5, &vec![1, 2], 1), Err(RouterError::UnknownChannel));
    let mut endpoint = vec![0u32; 2];
    assert_eq!(rt.on_endpoint_render(3, &mut endpoint, 1), Err(RouterError::UnknownChannel));
}

#[test]
fn stop_halts_every_callback_before_queues_go() {
    let mut rt = running_router();
    rt.on_endpoint_capture(0, &vec![1, 2], 1).unwrap();
    rt.stop().unwrap();
    assert_eq!(rt.session_state(), SessionState::Stopped);

    // no callback fires after teardown, in either direction or role
    assert_eq!(rt.on_endpoint_capture(0, &vec![1, 2], 1), Err(RouterError::WrongState));
    let mut wide = vec![8u32; 10];
    assert_eq!(rt.on_hardware_render(&mut wide, 1), Err(RouterError::WrongState));
    assert_eq!(wide, vec![8u32; 10]);
    assert_eq!(rt.on_hardware_capture(&vec![0u32; 21], 1), Err(RouterError::WrongState));
    let mut endpoint = vec![8u32; 2];
    assert_eq!(rt.on_endpoint_render(0, &mut endpoint, 1), Err(RouterError::WrongState));
    assert_eq!(endpoint, vec![8, 8]);

    // a stopped session never resumes
    assert_eq!(rt.stop(), Err(RouterError::WrongState));
    assert_eq!(rt.wire(), Err(RouterError::WrongState));
    assert_eq!(rt.start(), Err(RouterError::WrongState));
}
