use sdl_ocl_interop::driver::{find_driver_index, find_sdl_gl_driver};
use sdl_ocl_interop::frame::{
    action_for, frame_length_nanos, next_frame_time, sleep_nanos, InputEvent, LoopAction,
};
use sdl_ocl_interop::handshake::{advance, command_plan, next_command, waits_on, SharedBufferCmd, Stage};
use sdl_ocl_interop::layout::{buffer_byte_len, data_set_byte_len, should_print, DATA_SET_SIZE};

fn names(list: &[&str]) -> Vec<String> {
    list.iter().map(|s| s.to_string()).collect()
}

#[test]
fn gl_driver_found_at_its_position() {
    let list = names(&["direct3d", "opengl", "opengles2", "software"]);
    assert_eq!(find_sdl_gl_driver(&list), Some(1));
}

#[test]
fn gl_driver_first_of_duplicates() {
    let list = names(&["software", "opengl", "opengl"]);
    assert_eq!(find_sdl_gl_driver(&list), Some(1));
}

#[test]
fn gl_driver_absent() {
    assert_eq!(find_sdl_gl_driver(&names(&["opengles2", "software", "OpenGL"])), None);
    assert_eq!(find_sdl_gl_driver(&Vec::new()), None);
}

#[test]
fn driver_by_other_name() {
    let list = names(&["opengl", "software"]);
    assert_eq!(find_driver_index(&list, &"software".to_string()), Some(1));
    assert_eq!(find_driver_index(&list, &"metal".to_string()), None);
}

#[test]
fn handshake_plan_order() {
    assert_eq!(
        command_plan(),
        vec![
            SharedBufferCmd::AcquireGl,
            SharedBufferCmd::RunKernel,
            SharedBufferCmd::ReadBack,
            SharedBufferCmd::ReleaseGl,
        ]
    );
}

#[test]
fn handshake_each_waits_on_previous() {
    let plan = command_plan();
    assert_eq!(waits_on(plan[0]), None);
    for i in 1..plan.len() {
        assert_eq!(waits_on(plan[i]), Some(plan[i - 1]));
    }
}

#[test]
fn handshake_stepping() {
    assert_eq!(next_command(Stage::Ready), Some(SharedBufferCmd::AcquireGl));
    assert_eq!(advance(Stage::Ready), Stage::Acquired);
    assert_eq!(next_command(Stage::ReadDone), Some(SharedBufferCmd::ReleaseGl));
    assert_eq!(advance(Stage::ReadDone), Stage::Released);
    assert_eq!(next_command(Stage::Released), None);
    assert_eq!(advance(Stage::Released), Stage::Released);
}

#[test]
fn loop_stops_on_quit_and_escape() {
    assert_eq!(action_for(InputEvent::Quit), LoopAction::Stop);
    assert_eq!(action_for(InputEvent::EscapeDown), LoopAction::Stop);
    assert_eq!(action_for(InputEvent::Other), LoopAction::Present);
}

#[test]
fn frame_length_is_sixtieth_of_second() {
    assert_eq!(frame_length_nanos(), 16_666_666);
}

#[test]
fn sleep_until_frame_due() {
    assert_eq!(sleep_nanos(100, 40), 60);
    assert_eq!(sleep_nanos(100, 100), 0);
    assert_eq!(sleep_nanos(100, 250), 0);
}

#[test]
fn next_frame_time_checked() {
    assert_eq!(next_frame_time(1_000, 16_666_666), Some(16_667_666));
    assert_eq!(next_frame_time(u64::MAX - 5, 5), Some(u64::MAX));
    assert_eq!(next_frame_time(u64::MAX - 5, 6), None);
}

#[test]
fn buffer_sizes() {
    assert_eq!(data_set_byte_len(), 1024);
    assert_eq!(buffer_byte_len(DATA_SET_SIZE, 4), Some(1024));
    assert_eq!(buffer_byte_len(0, 4), Some(0));
    assert_eq!(buffer_byte_len(usize::MAX, 2), None);
    assert_eq!(buffer_byte_len(isize::MAX as usize, 1), Some(isize::MAX));
    assert_eq!(buffer_byte_len(isize::MAX as usize + 1, 1), None);
}

#[test]
fn only_leading_results_printed() {
    assert!(should_print(0));
    assert!(should_print(19));
    assert!(!should_print(20));
    assert!(!should_print(255));
}
