use waylock::lock::auth::{LockAuth, LoginError};
use waylock::lock::env::{interface, Global, Handshake, Interface, LockEnv};
use waylock::lock::output::{copy_ids, remove_id, LockOutputHandler, OutputHandling};

fn ready_env() -> LockEnv {
    let mut env = LockEnv::init_environment();
    env.global_created(1, "wl_compositor");
    env.global_created(2, "wl_shm");
    env.global_created(3, "zwlr_layer_shell_v1");
    env.global_created(4, "zwlr_input_inhibit_manager_v1");
    env.global_created(5, "wl_seat");
    env.global_created(6, "wl_output");
    assert_eq!(env.roundtrip(true), Handshake::Half);
    assert_eq!(env.roundtrip(true), Handshake::Ready);
    env
}

#[test]
fn interfaces_are_told_apart() {
    assert_eq!(interface("wl_compositor"), Some(Interface::Single(Global::Compositor)));
    assert_eq!(interface("zwlr_layer_shell_v1"), Some(Interface::Single(Global::LayerShell)));
    assert_eq!(
        interface("zwlr_input_inhibit_manager_v1"),
        Some(Interface::Single(Global::InhibitManager))
    );
    assert_eq!(interface("wl_shm"), Some(Interface::Single(Global::Shm)));
    assert_eq!(interface("wl_output"), Some(Interface::Output));
    assert_eq!(interface("wl_seat"), Some(Interface::Seat));
    assert_eq!(interface("xdg_wm_base"), None);
    assert_eq!(interface(""), None);
}

#[test]
fn handshake_takes_two_round_trips() {
    let mut env = LockEnv::init_environment();
    assert_eq!(env.handshake(), Handshake::Pending);
    env.global_created(1, "wl_compositor");
    assert_eq!(env.get_global(Global::Compositor), None);
    assert_eq!(env.roundtrip(true), Handshake::Half);
    assert_eq!(env.get_global(Global::Compositor), None);
    env.global_created(2, "wl_shm");
    assert_eq!(env.roundtrip(true), Handshake::Ready);
    assert_eq!(env.get_global(Global::Compositor), Some(1));
    assert_eq!(env.get_global(Global::Shm), Some(2));
    assert_eq!(env.get_global(Global::LayerShell), None);
    assert_eq!(env.require_global(Global::Compositor), 1);
    assert_eq!(env.roundtrip(false), Handshake::Ready);
}

#[test]
fn failed_round_trip_is_fatal() {
    let mut env = LockEnv::init_environment();
    env.global_created(1, "wl_compositor");
    assert_eq!(env.roundtrip(false), Handshake::Failed);
    assert_eq!(env.roundtrip(true), Handshake::Failed);
    assert_eq!(env.roundtrip(true), Handshake::Failed);
    assert_eq!(env.get_global(Global::Compositor), None);

    let mut env = LockEnv::init_environment();
    env.global_created(1, "wl_compositor");
    assert_eq!(env.roundtrip(true), Handshake::Half);
    assert_eq!(env.roundtrip(false), Handshake::Failed);
    assert_eq!(env.handshake(), Handshake::Failed);
    assert_eq!(env.get_global(Global::Compositor), None);
}

#[test]
fn inhibitor_is_acquired_once() {
    let mut env = ready_env();
    assert_eq!(env.require_global(Global::InhibitManager), 4);
    assert!(!env.holds_inhibitor());
    assert!(env.get_inhibitor());
    assert!(env.holds_inhibitor());
    assert!(!env.get_inhibitor());
    assert!(env.holds_inhibitor());
}

#[test]
fn created_listener_replays_existing_outputs() {
    let mut env = ready_env();
    env.global_created(7, "wl_output");
    assert_eq!(env.get_all_outputs(), vec![6, 7]);
    assert_eq!(env.set_output_created_listener(true), vec![6, 7]);
    assert_eq!(env.global_created(8, "wl_output"), Some(8));
    assert_eq!(env.get_all_outputs(), vec![6, 7, 8]);
    assert_eq!(env.set_output_created_listener(false), Vec::<u32>::new());
    assert_eq!(env.global_created(9, "wl_output"), None);
    assert_eq!(env.get_all_outputs(), vec![6, 7, 8, 9]);
}

#[test]
fn removed_listener_is_told() {
    let mut env = ready_env();
    assert_eq!(env.global_removed(6, "wl_output"), None);
    assert_eq!(env.get_all_outputs(), Vec::<u32>::new());
    env.global_created(7, "wl_output");
    env.set_output_removed_listener(true);
    assert_eq!(env.global_removed(7, "wl_output"), Some(7));
    assert_eq!(env.global_removed(7, "wl_output"), Some(7));
    assert_eq!(env.global_removed(7, "wl_seat"), None);
    assert_eq!(env.get_all_outputs(), Vec::<u32>::new());
}

#[test]
fn seats_come_and_go_and_singles_stay() {
    let mut env = ready_env();
    env.global_created(9, "wl_seat");
    assert_eq!(env.get_all_seats(), vec![5, 9]);
    assert_eq!(env.global_removed(5, "wl_seat"), None);
    assert_eq!(env.get_all_seats(), vec![9]);
    assert_eq!(env.global_removed(1, "wl_compositor"), None);
    assert_eq!(env.get_global(Global::Compositor), Some(1));
    assert_eq!(env.global_created(20, "xdg_wm_base"), None);
    assert_eq!(env.global_created(21, "wl_compositor"), None);
    assert_eq!(env.get_global(Global::Compositor), Some(21));
}

#[test]
fn output_handling_goes_through_the_trait() {
    fn subscribe<H: OutputHandling>(handler: &mut H) -> Vec<u32> {
        handler.set_output_removed_listener(true);
        handler.set_output_created_listener(true)
    }
    let mut env = ready_env();
    assert_eq!(subscribe(&mut env), vec![6]);
    assert_eq!(env.global_removed(6, "wl_output"), Some(6));
}

#[test]
fn output_handler_keeps_order() {
    let mut handler = LockOutputHandler::new();
    assert_eq!(handler.get_all(), Vec::<u32>::new());
    assert_eq!(handler.created(3), None);
    assert_eq!(handler.created(1), None);
    assert_eq!(handler.created(2), None);
    assert_eq!(handler.set_created_listener(true), vec![3, 1, 2]);
    handler.set_removed_listener(true);
    assert_eq!(handler.removed(1), Some(1));
    assert_eq!(handler.get_all(), vec![3, 2]);
    assert_eq!(handler.created(1), Some(1));
    assert_eq!(handler.get_all(), vec![3, 2, 1]);
}

#[test]
fn ids_are_removed_wherever_they_stand() {
    let mut ids = vec![4, 1, 4, 2, 4];
    assert_eq!(copy_ids(&ids), vec![4, 1, 4, 2, 4]);
    remove_id(&mut ids, 4);
    assert_eq!(ids, vec![1, 2]);
    remove_id(&mut ids, 9);
    assert_eq!(ids, vec![1, 2]);
}

#[test]
fn auth_knows_its_login_and_service() {
    let auth = LockAuth::for_login("alice".to_owned());
    assert_eq!(auth.login(), "alice");
    assert_eq!(LockAuth::service(), "system-auth");
    assert_eq!(LoginError::NoUser.message(), "Failed to get current username.");
    assert_eq!(LoginError::NotUnicode.message(), "Failed to parse the current username.");
}

#[test]
fn auth_asks_the_machine_for_the_user() {
    match LockAuth::new() {
        Ok(auth) => assert_eq!(auth.login(), auth.clone().login()),
        Err(error) => assert!(matches!(error, LoginError::NoUser | LoginError::NotUnicode)),
    }
}

#[test]
fn auth_follows_the_lookup() {
    let auth = LockAuth::from_lookup(Ok("bob".to_owned())).unwrap();
    assert_eq!(auth.login(), "bob");
    assert!(matches!(LockAuth::from_lookup(Err(LoginError::NoUser)), Err(LoginError::NoUser)));
    assert!(matches!(
        LockAuth::from_lookup(Err(LoginError::NotUnicode)),
        Err(LoginError::NotUnicode)
    ));
}
