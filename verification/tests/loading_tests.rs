use triplanar_splatting::layers::LayerArray;
use triplanar_splatting::loading::LoadingImage;

#[test]
fn tracker_starts_pending() {
    let t = LoadingImage::new(42);
    assert_eq!(t.handle, 42);
    assert!(!t.loaded);
}

#[test]
fn tracker_ignores_other_handles() {
    let mut t = LoadingImage::new(42);
    assert!(!t.notify(7));
    assert!(!t.loaded);
}

#[test]
fn tracker_loads_on_match_and_never_unloads() {
    let mut t = LoadingImage::new(42);
    assert!(t.notify(42));
    assert!(t.loaded);
    // A redundant delivery of the same notification still matches and
    // changes nothing.
    assert!(t.notify(42));
    assert!(t.loaded);
    // An unrelated notification after loading changes nothing either.
    assert!(!t.notify(7));
    assert!(t.loaded);
}

#[test]
fn layer_array_wraps_handles_pending() {
    let arr = LayerArray::new(&vec![1, 2, 3]);
    assert_eq!(arr.len(), 3);
    assert_eq!(arr.handles(), vec![1, 2, 3]);
    assert!(!arr.all_loaded());
}

#[test]
fn layer_array_converges_in_any_order() {
    let mut a = LayerArray::new(&vec![10, 20]);
    assert!(a.notify_any(20));
    assert!(!a.all_loaded());
    assert!(a.notify_any(10));
    assert!(a.all_loaded());

    let mut b = LayerArray::new(&vec![10, 20]);
    assert!(b.notify_any(10));
    assert!(!b.all_loaded());
    assert!(b.notify_any(20));
    assert!(b.all_loaded());
}

#[test]
fn layer_array_unmatched_notification_changes_nothing() {
    let mut a = LayerArray::new(&vec![10, 20]);
    assert!(!a.notify_any(99));
    assert!(!a.all_loaded());
    a.notify_any(10);
    a.notify_any(20);
    assert!(a.all_loaded());
    // Once loaded, it stays loaded through further notifications.
    assert!(!a.notify_any(99));
    assert!(a.all_loaded());
}

#[test]
fn layer_array_aliased_handles_all_match_one_notification() {
    // The same resource may sit in several layer slots; one notification
    // must reach every slot, with no short-circuit.
    let mut a = LayerArray::new(&vec![7, 7, 7]);
    assert!(a.notify_any(7));
    assert!(a.all_loaded());
}

#[test]
fn empty_layer_array_is_trivially_loaded() {
    let a = LayerArray::new(&Vec::new());
    assert_eq!(a.len(), 0);
    assert!(a.all_loaded());
    assert!(a.handles().is_empty());
}
