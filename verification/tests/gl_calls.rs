use vulkan_opengl_demo::command::Command;
use vulkan_opengl_demo::gl_call::{error_message, failure_message, CallAction, GlCall};
use vulkan_opengl_demo::render::scene;

#[test]
fn clean_call_succeeds() {
    let mut call = GlCall::new(true, &Command::Flush);
    assert_eq!(call.action(), CallAction::ReadError);
    assert_eq!(call.error_read(0), None);
    assert_eq!(call.action(), CallAction::Invoke);
    call.invoked();
    assert_eq!(call.action(), CallAction::ReadError);
    assert_eq!(call.error_read(0), None);
    assert_eq!(call.action(), CallAction::Succeed);
}

#[test]
fn earlier_errors_are_cleared_and_forgotten() {
    let mut call = GlCall::new(true, &Command::Flush);
    assert_eq!(call.error_read(0x500), None);
    assert_eq!(call.error_read(0x501), None);
    assert_eq!(call.action(), CallAction::ReadError);
    assert_eq!(call.error_read(0), None);
    call.invoked();
    assert_eq!(call.error_read(0), None);
    assert_eq!(call.action(), CallAction::Succeed);
}

#[test]
fn errors_of_the_call_are_reported_in_order() {
    let mut call = GlCall::new(true, &Command::GenTexture);
    assert_eq!(call.error_read(0), None);
    call.invoked();
    assert_eq!(call.error_read(0x502), Some(0x502));
    assert_eq!(call.error_read(0x505), Some(0x505));
    assert_eq!(call.action(), CallAction::ReadError);
    assert_eq!(call.error_read(0), None);
    assert_eq!(call.action(), CallAction::Fail);
}

#[test]
fn release_builds_and_immediate_mode_are_unchecked() {
    let mut release = GlCall::new(false, &Command::Flush);
    assert_eq!(release.action(), CallAction::Invoke);
    release.invoked();
    assert_eq!(release.action(), CallAction::Succeed);
    let mut immediate = GlCall::new(true, &Command::DrawScene { mode: 4, vertices: scene() });
    assert_eq!(immediate.action(), CallAction::Invoke);
    immediate.invoked();
    assert_eq!(immediate.action(), CallAction::Succeed);
}

#[test]
fn only_opengl_commands_are_checked() {
    assert!(Command::Flush.is_checked());
    assert!(Command::GenSemaphore.is_checked());
    assert!(Command::BindTexture { target: 0x0DE1, name: 1 }.is_checked());
    assert!(!Command::DrawScene { mode: 4, vertices: scene() }.is_checked());
    assert!(!Command::AcquireFrame.is_checked());
    assert!(!Command::BindImageMemory { image: 1, memory: 2, offset: 0 }.is_checked());
}

#[test]
fn messages_read_like_formatted_ones() {
    assert_eq!(error_message(0x502, "src/main.rs", 412), "OpenGL error: 0x502 at src/main.rs:412");
    let codes = [0u32, 9, 10, 15, 16, 0x50A, 0xABCDEF01, 0xFFFF_FFFF];
    let lines = [0u32, 7, 10, 99, 100, 4_294_967_295];
    for code in codes {
        for line in lines {
            assert_eq!(
                error_message(code, "a.rs", line),
                format!("OpenGL error: {:#X} at {}:{}", code, "a.rs", line)
            );
        }
    }
    assert_eq!(failure_message("gl::Flush()"), "Encountered OpenGL error in gl::Flush()");
}
