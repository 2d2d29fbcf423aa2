use vulkan_opengl_demo::command::Fault;
use vulkan_opengl_demo::egl::{config_attributes, context_attributes, DisplayHandle};

#[test]
fn wayland_and_xlib_displays_have_addresses() {
    assert_eq!(DisplayHandle::Wayland(0x1000).address(), Ok(0x1000));
    assert_eq!(DisplayHandle::Xlib(Some(0x2000)).address(), Ok(0x2000));
}

#[test]
fn other_displays_have_none() {
    assert_eq!(DisplayHandle::Xlib(None).address(), Err(Fault::MissingDisplay));
    assert_eq!(DisplayHandle::Other.address(), Err(Fault::UnsupportedDisplay));
}

#[test]
fn configuration_attributes() {
    assert_eq!(
        config_attributes(),
        [
            0x3033, 1, 0x3024, 8, 0x3023, 8, 0x3022, 8, 0x3025, 24, 0x3040, 8, 0x3038
        ]
    );
}

#[test]
fn context_is_opengl_4_6_compatibility() {
    assert_eq!(context_attributes(), [0x3098, 4, 0x30FB, 6, 0x30FD, 2, 0x3038]);
}
