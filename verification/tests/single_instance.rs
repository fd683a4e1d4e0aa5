use qube_shell::single_instance::{InstanceLock, LaunchDecision};

#[test]
fn the_first_launch_acquires_the_lock_and_starts() {
    let mut lock = InstanceLock::new();
    assert_eq!(lock.holder, None);
    let d = lock.launch(7, vec!["--flag".to_string()]);
    assert!(matches!(d, LaunchDecision::StartRunLoop));
    assert_eq!(lock.holder, Some(7));
}

#[test]
fn a_second_launch_forwards_its_arguments_and_does_not_start() {
    let mut lock = InstanceLock::new();
    let d1 = lock.launch(7, Vec::new());
    assert!(matches!(d1, LaunchDecision::StartRunLoop));
    let argv = vec!["--open".to_string(), "qube://item/42".to_string()];
    let d2 = lock.launch(9, argv.clone());
    match d2 {
        LaunchDecision::Forward { target, argv: forwarded } => {
            assert_eq!(target, 7);
            assert_eq!(forwarded, argv);
        }
        LaunchDecision::StartRunLoop => {
            panic!("a second launch must never start a run loop of its own")
        }
    }
    assert_eq!(lock.holder, Some(7));
}

#[test]
fn release_frees_the_lock_for_a_later_launch() {
    let mut lock = InstanceLock::new();
    let _ = lock.launch(7, Vec::new());
    lock.release(7);
    assert_eq!(lock.holder, None);
    let d = lock.launch(9, Vec::new());
    assert!(matches!(d, LaunchDecision::StartRunLoop));
    assert_eq!(lock.holder, Some(9));
}
