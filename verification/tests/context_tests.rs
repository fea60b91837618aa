//! Tests of the cancellation tree.

use starpc::context::ContextTree;

#[test]
fn test_context_new() {
    let mut tree = ContextTree::new();
    let ctx = tree.new_root();
    assert!(!tree.is_cancelled(ctx));
}

#[test]
fn test_context_cancel() {
    let mut tree = ContextTree::new();
    let ctx = tree.new_root();
    tree.cancel(ctx);
    assert!(tree.is_cancelled(ctx));
}

#[test]
fn test_context_child() {
    let mut tree = ContextTree::new();
    let parent = tree.new_root();
    let child = tree.child(parent);

    assert!(!tree.is_cancelled(parent));
    assert!(!tree.is_cancelled(child));

    tree.cancel(parent);

    assert!(tree.is_cancelled(parent));
    assert!(tree.is_cancelled(child));
}

#[test]
fn test_context_child_independent() {
    let mut tree = ContextTree::new();
    let parent = tree.new_root();
    let child = tree.child(parent);

    tree.cancel(child);

    assert!(!tree.is_cancelled(parent));
    assert!(tree.is_cancelled(child));
}

#[test]
fn test_context_grandchild_observes_root_cancel() {
    let mut tree = ContextTree::new();
    let root = tree.new_root();
    let mid = tree.child(root);
    let leaf = tree.child(mid);

    tree.cancel(root);

    assert!(tree.is_cancelled(leaf));
    assert!(tree.is_cancelled(mid));
}

#[test]
fn test_context_cancel_idempotent() {
    let mut tree = ContextTree::new();
    let ctx = tree.new_root();
    tree.cancel(ctx);
    tree.cancel(ctx);
    assert!(tree.is_cancelled(ctx));
}

#[test]
fn test_context_separate_roots() {
    let mut tree = ContextTree::new();
    let a = tree.new_root();
    let b = tree.new_root();
    tree.cancel(a);
    assert!(tree.is_cancelled(a));
    assert!(!tree.is_cancelled(b));
}
