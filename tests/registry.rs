use std::sync::Arc;

use vk_engine::registry::{CloseOutcome, WindowRegistry};

#[test]
fn closing_primary_requests_exit_and_keeps_windows() {
    let mut reg = WindowRegistry::new(1, "primary", 10u32);
    reg.insert(2, "second", 20);
    assert!(matches!(reg.close_requested(1), CloseOutcome::Exit));
    assert_eq!(reg.len(), 2);
    assert!(reg.contains(1) && reg.contains(2));
}

#[test]
fn closing_secondary_removes_only_that_pair() {
    let mut reg = WindowRegistry::new(1, "primary", 10u32);
    reg.insert(2, "second", 20);
    reg.insert(3, "third", 30);
    match reg.close_requested(2) {
        CloseOutcome::Removed { window, renderer } => {
            assert_eq!(window, "second");
            assert_eq!(renderer, 20);
        }
        _ => panic!("window 2 was open"),
    }
    assert_eq!(reg.len(), 2);
    assert!(!reg.contains(2));
    assert_eq!(reg.window(1), Some(&"primary"));
    assert_eq!(reg.renderer(3), Some(&30));
    assert_eq!(reg.primary_window_id(), 1);
}

#[test]
fn closing_unknown_window_changes_nothing() {
    let mut reg = WindowRegistry::new(1, "primary", 10u32);
    assert!(matches!(reg.close_requested(9), CloseOutcome::Unknown));
    assert_eq!(reg.len(), 1);
}

#[test]
fn shared_context_outlives_every_renderer() {
    let context = Arc::new("context");
    let mut reg = WindowRegistry::new(1, "primary", Arc::clone(&context));
    reg.insert(2, "second", Arc::clone(&context));
    reg.insert(3, "third", Arc::clone(&context));
    assert_eq!(Arc::strong_count(&context), 4);
    if let CloseOutcome::Removed { renderer, .. } = reg.close_requested(2) {
        drop(renderer);
    }
    assert_eq!(Arc::strong_count(&context), 3);
    drop(reg);
    assert_eq!(Arc::strong_count(&context), 1);
}
