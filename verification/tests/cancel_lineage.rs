use xacto::CancelTree;

#[test]
fn cancelling_a_node_cancels_its_subtree() {
    let mut tree = CancelTree::new();
    let root = tree.add_root();
    let child = tree.add_child(root);
    let grandchild = tree.add_child(child);
    let sibling = tree.add_child(root);

    assert!(!tree.is_cancelled(root));
    assert!(!tree.is_cancelled(child));
    assert!(!tree.is_cancelled(grandchild));

    tree.cancel(child);

    assert!(tree.is_cancelled(child));
    assert!(tree.is_cancelled(grandchild));
    // Never upward, never sideways.
    assert!(!tree.is_cancelled(root));
    assert!(!tree.is_cancelled(sibling));
}

#[test]
fn cancelling_the_root_cancels_everything() {
    let mut tree = CancelTree::new();
    let root = tree.add_root();
    let child_a = tree.add_child(root);
    let child_b = tree.add_child(root);
    let grandchild = tree.add_child(child_b);

    tree.cancel(root);

    assert!(tree.is_cancelled(root));
    assert!(tree.is_cancelled(child_a));
    assert!(tree.is_cancelled(child_b));
    assert!(tree.is_cancelled(grandchild));
}

#[test]
fn cancellation_is_level_triggered() {
    let mut tree = CancelTree::new();
    let root = tree.add_root();
    let child = tree.add_child(root);

    tree.cancel(child);
    assert!(tree.is_cancelled(child));
    // Observing it again, and requesting it again, changes nothing.
    assert!(tree.is_cancelled(child));
    tree.cancel(child);
    assert!(tree.is_cancelled(child));
    assert!(!tree.is_cancelled(root));
}

#[test]
fn two_roots_are_independent() {
    let mut tree = CancelTree::new();
    let root_a = tree.add_root();
    let root_b = tree.add_root();
    tree.cancel(root_a);
    assert!(tree.is_cancelled(root_a));
    assert!(!tree.is_cancelled(root_b));
}
