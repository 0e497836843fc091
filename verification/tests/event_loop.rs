use wgsl_cli::event::{ElementState, Event, Key, WindowEvent};
use wgsl_cli::frame::Size;
use wgsl_cli::frame_loop::{Action, FrameLoop, LoopState};
use wgsl_cli::state::{State, SurfaceError};

fn escape_pressed() -> WindowEvent {
    WindowEvent::KeyboardInput { state: ElementState::Pressed, key: Some(Key::Escape) }
}

fn own(event: WindowEvent) -> Event {
    Event::WindowEvent { own_window: true, event }
}

#[test]
fn loop_starts_running() {
    let frame_loop = FrameLoop::new();
    assert_eq!(frame_loop.state(), LoopState::Running);
    assert!(!frame_loop.is_exiting());
}

#[test]
fn close_request_exits() {
    let mut frame_loop = FrameLoop::new();
    let mut state = State::new(10, 10);
    assert_eq!(frame_loop.handle_event(&mut state, &own(WindowEvent::CloseRequested)), Action::Exit);
    assert_eq!(frame_loop.state(), LoopState::Exiting);
    assert!(frame_loop.is_exiting());
}

#[test]
fn escape_press_exits() {
    let mut frame_loop = FrameLoop::new();
    let mut state = State::new(10, 10);
    assert_eq!(frame_loop.handle_event(&mut state, &own(escape_pressed())), Action::Exit);
    assert_eq!(frame_loop.state(), LoopState::Exiting);
}

#[test]
fn exit_does_not_depend_on_render_state() {
    for frames in [0u32, 1, 9, 10, 11] {
        for request in [WindowEvent::CloseRequested, escape_pressed()] {
            let mut frame_loop = FrameLoop::new();
            let mut state = State::new(10, 10);
            for i in 0..frames {
                assert_eq!(
                    frame_loop.handle_event(&mut state, &Event::RedrawRequested { own_window: true }),
                    Action::Render
                );
                let start = state.begin_frame_at(i as u128);
                let outcome = state.complete_frame(&start, Err(SurfaceError::Timeout)).map(|_| ());
                assert_eq!(
                    frame_loop.handle_rendered(&outcome),
                    Action::Report(SurfaceError::Timeout)
                );
            }
            assert_eq!(frame_loop.handle_event(&mut state, &own(request)), Action::Exit);
            assert!(frame_loop.is_exiting());
            assert_eq!(state.frame(), frames);
        }
    }
}

#[test]
fn other_keys_and_releases_do_not_exit() {
    let events = [
        WindowEvent::KeyboardInput { state: ElementState::Released, key: Some(Key::Escape) },
        WindowEvent::KeyboardInput { state: ElementState::Pressed, key: Some(Key::Other) },
        WindowEvent::KeyboardInput { state: ElementState::Pressed, key: None },
        WindowEvent::KeyboardInput { state: ElementState::Released, key: None },
        WindowEvent::Other,
    ];
    let mut frame_loop = FrameLoop::new();
    let mut state = State::new(10, 10);
    for event in events {
        assert!(!event.is_exit_request());
        assert_eq!(frame_loop.handle_event(&mut state, &own(event)), Action::Wait);
        assert_eq!(frame_loop.state(), LoopState::Running);
    }
    assert!(WindowEvent::CloseRequested.is_exit_request());
    assert!(escape_pressed().is_exit_request());
}

#[test]
fn events_of_other_windows_are_ignored() {
    let mut frame_loop = FrameLoop::new();
    let mut state = State::new(10, 10);
    for event in [
        Event::WindowEvent { own_window: false, event: WindowEvent::CloseRequested },
        Event::WindowEvent { own_window: false, event: escape_pressed() },
        Event::RedrawRequested { own_window: false },
        Event::Other,
    ] {
        assert_eq!(frame_loop.handle_event(&mut state, &event), Action::Wait);
        assert_eq!(frame_loop.state(), LoopState::Running);
    }
}

#[test]
fn idle_point_requests_redraw_and_redraw_renders() {
    let mut frame_loop = FrameLoop::new();
    let mut state = State::new(10, 10);
    assert_eq!(frame_loop.handle_event(&mut state, &Event::MainEventsCleared), Action::RequestRedraw);
    assert_eq!(
        frame_loop.handle_event(&mut state, &Event::RedrawRequested { own_window: true }),
        Action::Render
    );
    assert_eq!(frame_loop.state(), LoopState::Running);
    assert_eq!(state.frame(), 0);
    assert_eq!(state.size(), Size { width: 10, height: 10 });
}

#[test]
fn render_outcomes_are_interpreted() {
    let mut frame_loop = FrameLoop::new();
    assert_eq!(frame_loop.handle_rendered(&Ok(())), Action::Wait);
    assert_eq!(frame_loop.state(), LoopState::Running);
    assert_eq!(
        frame_loop.handle_rendered(&Err(SurfaceError::Timeout)),
        Action::Report(SurfaceError::Timeout)
    );
    assert_eq!(
        frame_loop.handle_rendered(&Err(SurfaceError::Outdated)),
        Action::Report(SurfaceError::Outdated)
    );
    assert_eq!(frame_loop.state(), LoopState::Running);
    assert_eq!(frame_loop.handle_rendered(&Err(SurfaceError::Lost)), Action::Exit);
    assert_eq!(frame_loop.state(), LoopState::Exiting);

    let mut frame_loop = FrameLoop::new();
    assert_eq!(frame_loop.handle_rendered(&Err(SurfaceError::OutOfMemory)), Action::Exit);
    assert_eq!(frame_loop.state(), LoopState::Exiting);
}

#[test]
fn exiting_is_terminal() {
    let mut frame_loop = FrameLoop::new();
    let mut state = State::new(10, 10);
    frame_loop.handle_event(&mut state, &own(WindowEvent::CloseRequested));
    for event in [
        Event::MainEventsCleared,
        Event::RedrawRequested { own_window: true },
        own(WindowEvent::CloseRequested),
        own(escape_pressed()),
        own(WindowEvent::Other),
        Event::Other,
    ] {
        assert_eq!(frame_loop.handle_event(&mut state, &event), Action::Wait);
        assert_eq!(frame_loop.state(), LoopState::Exiting);
    }
    for outcome in [Ok(()), Err(SurfaceError::Timeout), Err(SurfaceError::Lost)] {
        assert_eq!(frame_loop.handle_rendered(&outcome), Action::Wait);
        assert_eq!(frame_loop.state(), LoopState::Exiting);
    }
}
