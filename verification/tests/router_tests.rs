use brtri::bridge_core::router::Router;
use brtri::Error;
use tokio::sync::watch;

#[test]
fn frames_are_routed_in_arrival_order() {
    let (_tx, rx) = watch::channel(false);
    let mut router = Router::new(4, rx);
    assert!(router.accept_input(vec![1]));
    assert!(router.accept_input(vec![2]));
    assert_eq!(router.next_output(), None);
    assert!(matches!(router.route_step(), Ok(true)));
    assert!(matches!(router.route_step(), Ok(true)));
    assert!(matches!(router.route_step(), Ok(false)));
    assert_eq!(router.next_output(), Some(vec![1]));
    assert_eq!(router.next_output(), Some(vec![2]));
    assert_eq!(router.next_output(), None);
}

#[test]
fn full_input_drops_frames() {
    let (_tx, rx) = watch::channel(false);
    let mut router = Router::new(2, rx);
    assert!(router.accept_input(vec![1]));
    assert!(!router.accept_input(vec![2]));
    assert!(matches!(router.route_step(), Ok(true)));
    assert_eq!(router.next_output(), Some(vec![1]));
}

#[test]
fn full_output_is_a_processing_error() {
    let (_tx, rx) = watch::channel(false);
    let mut router = Router::new(2, rx);
    assert!(router.accept_input(vec![1]));
    assert!(matches!(router.route_step(), Ok(true)));
    assert!(router.accept_input(vec![2]));
    match router.route_step() {
        Err(Error::Processing(message)) => assert_eq!(message, "Output buffer full"),
        other => panic!("unexpected {:?}", other),
    }
    assert_eq!(router.next_output(), Some(vec![1]));
    assert_eq!(router.next_output(), None);
}

#[test]
fn shutdown_flag_follows_the_sender() {
    let (tx, rx) = watch::channel(false);
    let router = Router::new(4, rx);
    assert!(!router.is_shutdown());
    tx.send(true).unwrap();
    assert!(router.is_shutdown());
    assert!(router.recover_connection().is_ok());
}
