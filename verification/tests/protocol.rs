use smithay_client_toolkit::reexports::client::protocol::{
    wl_compositor, wl_output, wl_seat, wl_shm,
};
use smithay_client_toolkit::reexports::client::Interface as ProtocolInterface;
use smithay_client_toolkit::reexports::protocols::wlr::unstable::input_inhibitor::v1::client::zwlr_input_inhibit_manager_v1;
use smithay_client_toolkit::reexports::protocols::wlr::unstable::layer_shell::v1::client::{
    zwlr_layer_shell_v1, zwlr_layer_surface_v1,
};
use smithay_client_toolkit::seat::keyboard::keysyms;
use waylock::lock::env::{interface, Global, Interface};
use waylock::lock::surface::{
    LockSurface, ANCHOR_BOTTOM, ANCHOR_LEFT, ANCHOR_RIGHT, ANCHOR_TOP,
};
use waylock::lock::{KEY_BACKSPACE, KEY_DELETE, KEY_ESCAPE, KEY_KP_ENTER, KEY_RETURN};

#[test]
fn keysyms_are_those_of_the_keymap_library() {
    assert_eq!(KEY_RETURN, keysyms::XKB_KEY_Return);
    assert_eq!(KEY_KP_ENTER, keysyms::XKB_KEY_KP_Enter);
    assert_eq!(KEY_BACKSPACE, keysyms::XKB_KEY_BackSpace);
    assert_eq!(KEY_DELETE, keysyms::XKB_KEY_Delete);
    assert_eq!(KEY_ESCAPE, keysyms::XKB_KEY_Escape);
}

#[test]
fn interface_names_are_those_of_the_protocol() {
    assert_eq!(
        interface(wl_compositor::WlCompositor::NAME),
        Some(Interface::Single(Global::Compositor))
    );
    assert_eq!(
        interface(zwlr_layer_shell_v1::ZwlrLayerShellV1::NAME),
        Some(Interface::Single(Global::LayerShell))
    );
    assert_eq!(
        interface(zwlr_input_inhibit_manager_v1::ZwlrInputInhibitManagerV1::NAME),
        Some(Interface::Single(Global::InhibitManager))
    );
    assert_eq!(interface(wl_shm::WlShm::NAME), Some(Interface::Single(Global::Shm)));
    assert_eq!(interface(wl_output::WlOutput::NAME), Some(Interface::Output));
    assert_eq!(interface(wl_seat::WlSeat::NAME), Some(Interface::Seat));
}

#[test]
fn anchors_are_those_of_the_layer_shell() {
    assert_eq!(ANCHOR_TOP, zwlr_layer_surface_v1::Anchor::Top.bits());
    assert_eq!(ANCHOR_BOTTOM, zwlr_layer_surface_v1::Anchor::Bottom.bits());
    assert_eq!(ANCHOR_LEFT, zwlr_layer_surface_v1::Anchor::Left.bits());
    assert_eq!(ANCHOR_RIGHT, zwlr_layer_surface_v1::Anchor::Right.bits());
    assert_eq!(
        LockSurface::layer_request().anchor,
        zwlr_layer_surface_v1::Anchor::all().bits()
    );
}
