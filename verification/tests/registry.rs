use idlepower::registry::{classify_interface, CapabilityError, InterfaceKind, Registry};

#[test]
fn classify_known_interfaces() {
    assert_eq!(classify_interface("wl_output"), InterfaceKind::Output);
    assert_eq!(classify_interface("wl_seat"), InterfaceKind::Seat);
    assert_eq!(
        classify_interface("zwlr_output_power_manager_v1"),
        InterfaceKind::PowerManager
    );
    assert_eq!(classify_interface("ext_idle_notifier_v1"), InterfaceKind::IdleNotifier);
}

#[test]
fn classify_unknown_interface() {
    assert_eq!(classify_interface("wl_compositor"), InterfaceKind::Other);
    assert_eq!(classify_interface(""), InterfaceKind::Other);
    assert_eq!(classify_interface("wl_outputs"), InterfaceKind::Other);
}

#[test]
fn globals_collected_in_advertisement_order() {
    let mut reg = Registry::new();
    reg.on_global("wl_output", 4);
    reg.on_global("wl_compositor", 1);
    reg.on_global("wl_output", 9);
    reg.on_global("wl_output", 2);
    assert_eq!(reg.outputs, vec![4, 9, 2]);
    assert_eq!(reg.seat, None);
    assert!(!reg.has_power_manager);
    assert!(!reg.has_idle_notifier);
}

#[test]
fn first_seat_is_tracked() {
    let mut reg = Registry::new();
    reg.on_global("wl_seat", 11);
    reg.on_global("wl_seat", 12);
    assert_eq!(reg.seat, Some(11));
}

#[test]
fn capabilities_recorded() {
    let mut reg = Registry::new();
    reg.on_global("zwlr_output_power_manager_v1", 5);
    assert!(reg.has_power_manager);
    assert!(!reg.has_idle_notifier);
    reg.on_global("ext_idle_notifier_v1", 6);
    assert!(reg.has_idle_notifier);
}

#[test]
fn retracted_output_is_pruned() {
    let mut reg = Registry::new();
    reg.on_global("wl_output", 1);
    reg.on_global("wl_output", 2);
    reg.on_global("wl_output", 3);
    reg.on_global_remove(2);
    assert_eq!(reg.outputs, vec![1, 3]);
    reg.on_global_remove(8);
    assert_eq!(reg.outputs, vec![1, 3]);
    reg.on_global_remove(1);
    reg.on_global_remove(3);
    assert_eq!(reg.outputs, Vec::<u32>::new());
}

#[test]
fn capability_gating_all_combinations() {
    // Only present-present proceeds; every other combination fails.
    for (power, idle) in [(false, false), (false, true), (true, false), (true, true)] {
        let mut reg = Registry::new();
        reg.on_global("wl_output", 1);
        if power {
            reg.on_global("zwlr_output_power_manager_v1", 2);
        }
        if idle {
            reg.on_global("ext_idle_notifier_v1", 3);
        }
        let r = reg.check_capabilities();
        match (power, idle) {
            (true, true) => assert_eq!(r, Ok(())),
            (false, _) => assert_eq!(r, Err(CapabilityError::PowerControlMissing)),
            (true, false) => assert_eq!(r, Err(CapabilityError::IdleSignalMissing)),
        }
    }
}
