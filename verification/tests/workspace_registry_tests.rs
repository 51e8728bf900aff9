use xfwl4::workspace::{handles_to_enter, WorkspaceGroup, WorkspaceRegistry};

fn s(x: &str) -> String {
    x.to_string()
}

fn registry() -> WorkspaceRegistry {
    let mut r = WorkspaceRegistry::new();
    assert_eq!(r.workspace_created(s("ws-1"), s("One"), (0, 0), true), 0);
    assert_eq!(r.workspace_created(s("ws-2"), s("Two"), (1, 0), false), 1);
    r.instance_sent(0, 10);
    r.instance_sent(1, 11);
    r.instance_sent(1, 12);
    r
}

#[test]
fn sent_objects_stand_for_their_workspace() {
    let r = registry();
    assert_eq!(r.workspace_handles_for_id(&s("ws-2")), vec![11, 12]);
    assert_eq!(r.workspace_handles_for_id(&s("ws-9")), Vec::<u32>::new());
    assert_eq!(r.workspace_id_for_handle(12), Some(s("ws-2")));
    assert_eq!(r.workspace_id_for_handle(99), None);
}

#[test]
fn activation_requests_only_for_a_change_of_state() {
    let r = registry();
    assert_eq!(r.request_target(11, true), Some(s("ws-2")));
    assert_eq!(r.request_target(11, false), None);
    assert_eq!(r.request_target(10, true), None);
    assert_eq!(r.request_target(10, false), Some(s("ws-1")));
    assert_eq!(r.request_target(77, true), None);
}

#[test]
fn changes_are_applied_and_announced_on_every_object() {
    let mut r = registry();
    let (c, objects) = r.workspace_changed(&s("ws-2"), None, Some((2, 0)), Some(true)).unwrap();
    assert_eq!(c.name, None);
    assert_eq!(c.coordinates, Some((2, 0)));
    assert_eq!(c.active, Some(true));
    assert_eq!(objects, vec![11, 12]);
    assert_eq!(r.workspaces[1].info.coordinates, (2, 0));
    assert!(r.workspaces[1].info.active);
    let (c, _) = r.workspace_changed(&s("ws-2"), Some(s("Deux")), None, Some(true)).unwrap();
    assert_eq!(c.name, Some(s("Deux")));
    assert_eq!(c.active, None);
    assert!(r.workspace_changed(&s("ws-9"), None, None, Some(true)).is_none());
}

#[test]
fn destroyed_objects_are_forgotten() {
    let mut r = registry();
    r.handle_destroyed(11);
    assert_eq!(r.workspace_handles_for_id(&s("ws-2")), vec![12]);
    assert_eq!(r.request_target(11, true), None);
    r.handle_destroyed(11);
    assert_eq!(r.handles.len(), 2);
}

#[test]
fn recreating_a_workspace_keeps_its_place() {
    let mut r = registry();
    assert_eq!(r.workspace_created(s("ws-1"), s("Uno"), (0, 0), false), 0);
    assert_eq!(r.workspaces.len(), 2);
    assert_eq!(r.workspaces[0].info.name, s("Uno"));
    assert_eq!(r.workspace_handles_for_id(&s("ws-1")), Vec::<u32>::new());
    assert_eq!(r.request_target(10, true), Some(s("ws-1")));
}

#[test]
fn destroying_a_workspace_forgets_its_objects() {
    let mut r = registry();
    assert_eq!(r.workspace_destroyed(&s("ws-2")), Some(vec![11, 12]));
    assert_eq!(r.workspaces.len(), 1);
    assert_eq!(r.request_target(12, true), None);
    assert_eq!(r.handles.len(), 1);
    assert_eq!(r.workspace_destroyed(&s("ws-2")), None);
    r.instance_sent(0, 12);
    assert_eq!(r.workspace_id_for_handle(12), Some(s("ws-1")));
}

#[test]
fn toplevels_enter_only_their_clients_workspace_objects_once() {
    let handles = vec![(11, 1), (12, 2), (13, 1), (14, 1)];
    assert_eq!(handles_to_enter(&handles, 1, &vec![13]), vec![11, 14]);
    assert_eq!(handles_to_enter(&handles, 2, &Vec::new()), vec![12]);
    assert_eq!(handles_to_enter(&handles, 3, &Vec::new()), Vec::<u32>::new());
}

#[test]
fn workspace_group_tracks_outputs_and_objects() {
    let mut g = WorkspaceGroup::new();
    assert_eq!(g.output_enter(1), Vec::<u32>::new());
    g.instance_sent(5);
    g.instance_sent(6);
    assert_eq!(g.output_enter(2), vec![5, 6]);
    g.output_enter(1);
    assert_eq!(g.outputs, vec![1, 2, 1]);
    g.instance_destroyed(5);
    assert_eq!(g.output_leave(1), vec![6]);
    assert_eq!(g.outputs, vec![2]);
}
