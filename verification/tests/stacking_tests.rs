use melt_desktop::stacking::StackingOrder;
use melt_desktop::workspaces::WorkspaceManager;

fn stack(ids: &[u64]) -> StackingOrder {
    let mut s = StackingOrder::new();
    for &i in ids {
        s.push(i);
    }
    s
}

#[test]
fn push_puts_on_top() {
    let s = stack(&[1, 2, 3]);
    assert_eq!(s.top(), Some(3));
    assert_eq!(s.iter(), vec![1, 2, 3]);
    assert_eq!(s.iter_rev(), vec![3, 2, 1]);
    assert_eq!(s.len(), 3);
    assert!(!s.is_empty());
}

#[test]
fn raise_moves_to_top() {
    let mut s = stack(&[1, 2, 3]);
    s.raise(&1);
    assert_eq!(s.iter(), vec![2, 3, 1]);
    assert_eq!(s.top(), Some(1));
    s.raise(&9);
    assert_eq!(s.iter(), vec![2, 3, 1]);
}

#[test]
fn lower_moves_to_bottom() {
    let mut s = stack(&[1, 2, 3]);
    s.lower(&3);
    assert_eq!(s.iter(), vec![3, 1, 2]);
    s.lower(&9);
    assert_eq!(s.iter(), vec![3, 1, 2]);
}

#[test]
fn raise_moves_first_duplicate_only() {
    let mut s = stack(&[5, 1, 5]);
    s.raise(&5);
    assert_eq!(s.iter(), vec![1, 5, 5]);
    let mut s = stack(&[1, 5, 2, 5]);
    s.lower(&5);
    assert_eq!(s.iter(), vec![5, 1, 2, 5]);
}

#[test]
fn remove_drops_every_occurrence() {
    let mut s = stack(&[1, 2, 1, 3]);
    s.remove(&1);
    assert_eq!(s.iter(), vec![2, 3]);
    assert!(!s.contains(&1));
    assert!(s.contains(&2));
    s.remove(&7);
    assert_eq!(s.iter(), vec![2, 3]);
}

#[test]
fn empty_stack() {
    let s = StackingOrder::new();
    assert!(s.is_empty());
    assert_eq!(s.top(), None);
    assert!(s.iter_rev().is_empty());
}

#[test]
fn workspaces_new_names_and_minimum() {
    let m = WorkspaceManager::new(0);
    assert_eq!(m.count(), 1);
    let m = WorkspaceManager::new(12);
    assert_eq!(m.count(), 12);
    assert_eq!(m.active_index(), 0);
    assert_eq!(m.active().name, "Workspace 1");
    assert_eq!(m.active().id, 0);
}

#[test]
fn workspaces_switch() {
    let mut m = WorkspaceManager::new(3);
    assert!(m.switch_to(2));
    assert_eq!(m.active_index(), 2);
    assert!(m.switch_to(2));
    assert!(!m.switch_to(3));
    assert_eq!(m.active_index(), 2);
    assert_eq!(m.active().name, "Workspace 3");
}

#[test]
fn workspaces_double_digit_name() {
    let mut m = WorkspaceManager::new(11);
    assert!(m.switch_to(9));
    assert_eq!(m.active().name, "Workspace 10");
    assert!(m.switch_to(10));
    assert_eq!(m.active().name, "Workspace 11");
}

#[test]
fn workspaces_move_window() {
    let mut m = WorkspaceManager::new(2);
    m.active_mut().windows.push(7);
    m.active_mut().windows.push(8);
    m.move_window_to(&7, 1);
    assert_eq!(m.active().windows.iter(), vec![8]);
    assert!(m.switch_to(1));
    assert_eq!(m.active().windows.iter(), vec![7]);
    // Moving to the active workspace or to a missing one does nothing.
    m.move_window_to(&7, 1);
    m.move_window_to(&7, 5);
    assert_eq!(m.active().windows.iter(), vec![7]);
}

#[test]
fn workspaces_clone_keeps_state() {
    let mut m = WorkspaceManager::new(3);
    assert!(m.switch_to(2));
    m.active_mut().windows.push(5);
    let c = m.clone();
    assert_eq!(c.count(), 3);
    assert_eq!(c.active_index(), 2);
    assert_eq!(c.active().windows.iter(), vec![5]);
}
