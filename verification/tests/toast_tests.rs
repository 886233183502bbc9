use kazeta_core::ipc::ToastStyle;
use kazeta_core::toast::{ToastManager, FADE_MS, MAX_VISIBLE_TOASTS};

#[test]
fn test_toast_manager_add_and_remove() {
    let mut manager = ToastManager::new();
    let start: u64 = 10_000;

    // Add toasts
    manager.add_toast("Toast 1".to_string(), None, ToastStyle::Info, 1000, start);
    manager.add_toast("Toast 2".to_string(), None, ToastStyle::Success, 1000, start);

    assert!(!manager.is_empty());
    assert_eq!(manager.get_visible_toasts().len(), 2);

    // Wait for expiration
    manager.update(start + 1100);

    assert!(manager.is_empty());
    assert_eq!(manager.get_visible_toasts().len(), 0);
}

#[test]
fn test_toast_manager_max_visible() {
    let mut manager = ToastManager::new();

    // Add more toasts than max_visible
    for i in 0..5 {
        manager.add_toast(format!("Toast {}", i), None, ToastStyle::Info, 5000, 0);
    }

    // Should only show max_visible (3)
    assert_eq!(manager.get_visible_toasts().len(), 3);

    // But all 5 should be in the queue
    assert_eq!(manager.len(), 5);
}

#[test]
fn visible_toasts_are_the_oldest_in_order() {
    let mut manager = ToastManager::new();
    for i in 0..5 {
        manager.add_toast(format!("Toast {}", i), None, ToastStyle::Info, 5000, i as u64);
    }
    let visible = manager.get_visible_toasts();
    assert_eq!(visible.len(), MAX_VISIBLE_TOASTS);
    assert_eq!(visible[0].message, "Toast 0");
    assert_eq!(visible[1].message, "Toast 1");
    assert_eq!(visible[2].message, "Toast 2");
}

#[test]
fn toast_lives_strictly_less_than_its_duration() {
    let mut manager = ToastManager::new();
    manager.add_toast("hi".to_string(), None, ToastStyle::Info, 1000, 500);
    manager.update(500 + 950);
    assert_eq!(manager.get_visible_toasts().len(), 1);
    manager.update(500 + 999);
    assert_eq!(manager.get_visible_toasts().len(), 1);
    // At creation time plus duration the toast is gone.
    manager.update(500 + 1000);
    assert_eq!(manager.get_visible_toasts().len(), 0);
}

#[test]
fn update_keeps_order_and_drops_only_expired() {
    let mut manager = ToastManager::new();
    manager.add_toast("short".to_string(), None, ToastStyle::Info, 100, 0);
    manager.add_toast("long".to_string(), Some("icon.png".to_string()), ToastStyle::Warning, 10_000, 0);
    manager.add_toast("short too".to_string(), None, ToastStyle::Error, 100, 50);
    manager.update(120);
    let visible = manager.get_visible_toasts();
    assert_eq!(visible.len(), 2);
    assert_eq!(visible[0].message, "long");
    assert_eq!(visible[0].icon.as_deref(), Some("icon.png"));
    assert_eq!(visible[0].style, ToastStyle::Warning);
    assert_eq!(visible[1].message, "short too");
}

#[test]
fn clock_before_creation_counts_as_no_time_passed() {
    let mut manager = ToastManager::new();
    manager.add_toast("early".to_string(), None, ToastStyle::Info, 10, 1000);
    manager.update(5);
    assert_eq!(manager.len(), 1);
    // A toast without duration is gone at once.
    manager.add_toast("none".to_string(), None, ToastStyle::Info, 0, 1000);
    manager.update(1000);
    assert_eq!(manager.len(), 1);
}

#[test]
fn alpha_fades_over_the_last_half_second() {
    let mut manager = ToastManager::new();
    manager.add_toast("fade".to_string(), None, ToastStyle::Info, 2000, 1000);
    let visible = manager.get_visible_toasts();
    let toast = visible[0];
    assert_eq!(FADE_MS, 500);
    assert_eq!(toast.alpha_permille(1000), 1000);
    assert_eq!(toast.alpha_permille(2500), 1000);
    assert_eq!(toast.alpha_permille(2501), 998);
    assert_eq!(toast.alpha_permille(2750), 500);
    assert_eq!(toast.alpha_permille(2999), 2);
    assert_eq!(toast.alpha_permille(3000), 0);
    assert_eq!(toast.alpha_permille(9000), 0);
    assert!(toast.is_live(2999));
    assert!(!toast.is_live(3000));
}
