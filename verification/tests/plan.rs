use qube_shell::capability::{registration_plan, Capability};

#[test]
fn desktop_plan_is_the_full_ordered_list() {
    let plan = registration_plan(true);
    assert_eq!(
        plan,
        vec![
            Capability::Logging,
            Capability::Filesystem,
            Capability::Dialog,
            Capability::ProcessControl,
            Capability::OsInfo,
            Capability::SingleInstance,
            Capability::Updater,
            Capability::DeepLink,
            Capability::Http,
            Capability::Opener,
        ]
    );
}

#[test]
fn mobile_plan_leaves_out_the_desktop_only_capabilities() {
    let plan = registration_plan(false);
    assert_eq!(
        plan,
        vec![
            Capability::Logging,
            Capability::Filesystem,
            Capability::Dialog,
            Capability::ProcessControl,
            Capability::OsInfo,
            Capability::DeepLink,
            Capability::Http,
            Capability::Opener,
        ]
    );
    assert!(!plan.contains(&Capability::SingleInstance));
    assert!(!plan.contains(&Capability::Updater));
}

#[test]
fn desktop_plan_has_the_desktop_only_capabilities() {
    let plan = registration_plan(true);
    assert!(plan.contains(&Capability::SingleInstance));
    assert!(plan.contains(&Capability::Updater));
}

#[test]
fn logging_comes_first_on_both_targets() {
    for desktop in [true, false] {
        let plan = registration_plan(desktop);
        assert_eq!(plan[0], Capability::Logging);
        assert!(!plan[1..].contains(&Capability::Logging));
    }
}

#[test]
fn guard_precedes_updater_and_deep_link_on_desktop() {
    let plan = registration_plan(true);
    let at = |c: Capability| plan.iter().position(|x| *x == c).unwrap();
    assert!(at(Capability::SingleInstance) < at(Capability::Updater));
    assert!(at(Capability::SingleInstance) < at(Capability::DeepLink));
}

#[test]
fn no_capability_is_registered_twice() {
    for desktop in [true, false] {
        let plan = registration_plan(desktop);
        for i in 0..plan.len() {
            for j in (i + 1)..plan.len() {
                assert_ne!(plan[i], plan[j]);
            }
        }
    }
}
