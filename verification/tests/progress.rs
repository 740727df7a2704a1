use nexir::export::progress::{eta_frames, ExportControl, ETA_MIN_FRAMES};

#[test]
fn test_export_control_flags() {
    let mut ctrl = ExportControl::new();
    assert!(!ctrl.is_cancelled());
    assert!(!ctrl.is_paused());
    ctrl.pause();
    assert!(ctrl.is_paused());
    ctrl.resume();
    assert!(!ctrl.is_paused());
    ctrl.cancel();
    assert!(ctrl.is_cancelled());
}

#[test]
fn resuming_does_not_undo_a_cancellation() {
    let mut ctrl = ExportControl::new();
    ctrl.cancel();
    ctrl.pause();
    ctrl.resume();
    assert!(ctrl.is_cancelled());
    assert!(!ctrl.is_paused());
}

#[test]
fn an_estimate_needs_a_few_frames() {
    assert_eq!(ETA_MIN_FRAMES, 5);
    assert_eq!(eta_frames(0, 100), None);
    assert_eq!(eta_frames(4, 100), None);
    assert_eq!(eta_frames(5, 100), Some(95));
    assert_eq!(eta_frames(100, 100), None);
    assert_eq!(eta_frames(120, 100), None);
}
