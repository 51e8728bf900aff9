//! ext-workspace: the state a workspace is announced with, and the activation requests a
//! client queues until it commits them.

use vstd::prelude::*;
use indexmap::IndexMap;
use std::collections::HashMap;

verus! {

broadcast use vstd::std_specs::hash::group_hash_axioms;

/// A request a client queued on a workspace, by the workspace's identifier.
pub enum ClientRequest {
    Activate(String),
    Deactivate(String),
}

pub enum ClientRequestView {
    Activate(Seq<char>),
    Deactivate(Seq<char>),
}

impl View for ClientRequest {
    type V = ClientRequestView;

    open spec fn view(&self) -> ClientRequestView {
        match self {
            ClientRequest::Activate(id) => ClientRequestView::Activate(id@),
            ClientRequest::Deactivate(id) => ClientRequestView::Deactivate(id@),
        }
    }
}

pub open spec fn requests_view(s: Seq<ClientRequest>) -> Seq<ClientRequestView> {
    s.map_values(|r: ClientRequest| r@)
}

/// The requests a workspace manager object has queued since its last commit.
pub struct WorkspaceManagerUserData {
    pub requests: Vec<ClientRequest>,
}

impl WorkspaceManagerUserData {
    pub fn new() -> (r: WorkspaceManagerUserData)
        ensures
            r.requests@.len() == 0,
    {
        WorkspaceManagerUserData { requests: Vec::new() }
    }

    /// Queues activation of a workspace, unless it is active already.
    pub fn request_activate(&mut self, workspace_id: String, is_active: bool)
        ensures
            requests_view(final(self).requests@) == (if is_active {
                requests_view(old(self).requests@)
            } else {
                requests_view(old(self).requests@).push(ClientRequestView::Activate(workspace_id@))
            }),
    {
        if !is_active {
            let ghost before = requests_view(self.requests@);
            let ghost idv = workspace_id@;
            self.requests.push(ClientRequest::Activate(workspace_id));
            assert(requests_view(self.requests@) =~= before.push(ClientRequestView::Activate(idv)));
        }
    }

    /// Queues deactivation of a workspace, when it is active.
    pub fn request_deactivate(&mut self, workspace_id: String, is_active: bool)
        ensures
            requests_view(final(self).requests@) == (if !is_active {
                requests_view(old(self).requests@)
            } else {
                requests_view(old(self).requests@).push(ClientRequestView::Deactivate(workspace_id@))
            }),
    {
        if is_active {
            let ghost before = requests_view(self.requests@);
            let ghost idv = workspace_id@;
            self.requests.push(ClientRequest::Deactivate(workspace_id));
            assert(requests_view(self.requests@) =~= before.push(ClientRequestView::Deactivate(idv)));
        }
    }

    /// Takes the queued requests, in the order they came, leaving none.
    pub fn commit(&mut self) -> (r: Vec<ClientRequest>)
        ensures
            r@ == old(self).requests@,
            final(self).requests@.len() == 0,
    {
        let mut taken: Vec<ClientRequest> = Vec::new();
        std::mem::swap(&mut taken, &mut self.requests);
        taken
    }
}

/// What clients know of a workspace.  The coordinates are those in the workspace grid.
pub struct WorkspaceInfo {
    pub name: String,
    pub coordinates: (u32, u32),
    pub active: bool,
}

/// What is announced when a workspace changes.
pub struct WorkspaceChanges {
    pub name: Option<String>,
    pub coordinates: Option<(u32, u32)>,
    /// The new state, when whether it is active changed.
    pub active: Option<bool>,
}

impl WorkspaceInfo {
    /// Applies a change.  A name or coordinates given are announced even when unchanged; the
    /// state only when it changed.
    pub fn apply_change(&mut self, name: Option<String>, coordinates: Option<(u32, u32)>, is_active: Option<bool>) -> (r: WorkspaceChanges)
        ensures
            crate::util::ov(r.name) == crate::util::ov(name),
            r.coordinates == coordinates,
            r.active == (match is_active {
                Some(a) => if a != old(self).active { Some(a) } else { None },
                None => None,
            }),
            final(self).name@ == (match crate::util::ov(name) {
                Some(n) => n,
                None => old(self).name@,
            }),
            final(self).coordinates == (match coordinates {
                Some(c) => c,
                None => old(self).coordinates,
            }),
            final(self).active == (match is_active {
                Some(a) => a,
                None => old(self).active,
            }),
    {
        let name_out = match name {
            Some(n) => {
                self.name = n.clone();
                Some(n)
            },
            None => None,
        };
        match coordinates {
            Some(c) => { self.coordinates = c; },
            None => {},
        }
        let active_out = match is_active {
            Some(a) => if a != self.active {
                self.active = a;
                Some(a)
            } else {
                None
            },
            None => None,
        };
        WorkspaceChanges { name: name_out, coordinates, active: active_out }
    }
}

/// A workspace as clients know it, with the workspace objects it was sent to them as.
pub struct Workspace {
    pub id: String,
    pub info: WorkspaceInfo,
    pub instances: Vec<u32>,
}

pub struct WorkspaceView {
    pub id: Seq<char>,
    pub name: Seq<char>,
    pub coordinates: (u32, u32),
    pub active: bool,
    pub instances: Seq<u32>,
}

impl View for Workspace {
    type V = WorkspaceView;

    open spec fn view(&self) -> WorkspaceView {
        WorkspaceView {
            id: self.id@,
            name: self.info.name@,
            coordinates: self.info.coordinates,
            active: self.info.active,
            instances: self.instances@,
        }
    }
}

fn clone_workspace(w: &Workspace) -> (r: Workspace)
    ensures
        r@ == w@,
{
    Workspace {
        id: w.id.clone(),
        info: WorkspaceInfo { name: w.info.name.clone(), coordinates: w.info.coordinates, active: w.info.active },
        instances: w.instances.clone(),
    }
}

#[verifier::external_type_specification]
#[verifier::external_body]
#[verifier::reject_recursive_types(K)]
#[verifier::reject_recursive_types(V)]
#[verifier::reject_recursive_types(S)]
pub struct ExIndexMap<K, V, S>(IndexMap<K, V, S>);

/// The workspaces an index map holds, in its order.
pub uninterp spec fn workspace_entries(m: IndexMap<String, Workspace>) -> Seq<WorkspaceView>;

/// The keys of an index map, in its order: `workspace_keys(m)[i]` is the key of the entry
/// whose value is `workspace_entries(m)[i]`.
pub uninterp spec fn workspace_keys(m: IndexMap<String, Workspace>) -> Seq<Seq<char>>;

/// `IndexMap::new`: an empty map.
#[verifier::external_body]
fn workspace_map_new() -> (r: IndexMap<String, Workspace>)
    ensures
        workspace_entries(r) == Seq::<WorkspaceView>::empty(),
        workspace_keys(r) == Seq::<Seq<char>>::empty(),
{
    IndexMap::new()
}

/// `IndexMap::len`: the number of entries, each a key with its value.
#[verifier::external_body]
fn workspace_map_len(m: &IndexMap<String, Workspace>) -> (r: usize)
    ensures
        r == workspace_entries(*m).len(),
        r == workspace_keys(*m).len(),
{
    m.len()
}

/// `IndexMap::get_index_of`: the position of the entry whose key is `key`, if there is one.
#[verifier::external_body]
fn workspace_map_index_of(m: &IndexMap<String, Workspace>, key: &String) -> (r: Option<usize>)
    ensures
        match r {
            Some(i) => i < workspace_keys(*m).len() && workspace_keys(*m)[i as int] == key@,
            None => forall|i: int| 0 <= i < workspace_keys(*m).len() ==> #[trigger] workspace_keys(*m)[i] != key@,
        },
{
    m.get_index_of(key)
}

/// Indexing an `IndexMap` by position (which panics past the end): the value at `i`.
#[verifier::external_body]
fn workspace_map_at(m: &IndexMap<String, Workspace>, i: usize) -> (r: &Workspace)
    requires
        i < workspace_entries(*m).len(),
    ensures
        r@ == workspace_entries(*m)[i as int],
{
    &m[i]
}

/// `IndexMap::insert`: when an entry has the key, it keeps its place and its key and takes the
/// new value; the old value is handed back.  Otherwise the key and value are appended.
#[verifier::external_body]
fn workspace_map_insert(m: &mut IndexMap<String, Workspace>, key: String, value: Workspace) -> (r: Option<Workspace>)
    ensures
        match r {
            Some(old_value) => exists|i: int|
                0 <= i < workspace_keys(*old(m)).len() && #[trigger] workspace_keys(*old(m))[i] == key@
                    && old_value@ == workspace_entries(*old(m))[i]
                    && workspace_entries(*final(m)) == workspace_entries(*old(m)).update(i, value@)
                    && workspace_keys(*final(m)) == workspace_keys(*old(m)),
            None => (forall|i: int| 0 <= i < workspace_keys(*old(m)).len() ==> #[trigger] workspace_keys(*old(m))[i] != key@)
                && workspace_entries(*final(m)) == workspace_entries(*old(m)).push(value@)
                && workspace_keys(*final(m)) == workspace_keys(*old(m)).push(key@),
        },
{
    m.insert(key, value)
}

/// `IndexMap::shift_remove`: the entry whose key is `key` leaves, the later ones move up in
/// order; its value is handed back.
#[verifier::external_body]
fn workspace_map_shift_remove(m: &mut IndexMap<String, Workspace>, key: &String) -> (r: Option<Workspace>)
    ensures
        match r {
            Some(old_value) => exists|i: int|
                0 <= i < workspace_keys(*old(m)).len() && #[trigger] workspace_keys(*old(m))[i] == key@
                    && old_value@ == workspace_entries(*old(m))[i]
                    && workspace_entries(*final(m)) == workspace_entries(*old(m)).remove(i)
                    && workspace_keys(*final(m)) == workspace_keys(*old(m)).remove(i),
            None => (forall|i: int| 0 <= i < workspace_keys(*old(m)).len() ==> #[trigger] workspace_keys(*old(m))[i] != key@)
                && workspace_entries(*final(m)) == workspace_entries(*old(m))
                && workspace_keys(*final(m)) == workspace_keys(*old(m)),
        },
{
    m.shift_remove(key)
}

/// The workspaces by identifier, in the order they were created, and which workspace each
/// workspace object stands for (by the workspace's identifier).
pub struct WorkspaceRegistry {
    pub workspaces: IndexMap<String, Workspace>,
    pub handles: HashMap<u32, String>,
}

pub struct WorkspaceRegistryView {
    pub keys: Seq<Seq<char>>,
    pub workspaces: Seq<WorkspaceView>,
    pub handles: Map<u32, Seq<char>>,
}

impl View for WorkspaceRegistry {
    type V = WorkspaceRegistryView;

    open spec fn view(&self) -> WorkspaceRegistryView {
        WorkspaceRegistryView {
            keys: workspace_keys(self.workspaces),
            workspaces: workspace_entries(self.workspaces),
            handles: handles_view(self.handles@),
        }
    }
}

pub open spec fn handles_view(hs: Map<u32, String>) -> Map<u32, Seq<char>> {
    hs.map_values(|n: String| n@)
}

/// No identifier names two workspaces.
pub open spec fn ids_distinct(ws: Seq<WorkspaceView>) -> bool {
    forall|i: int, j: int| 0 <= i < ws.len() && 0 <= j < ws.len() && i != j ==> #[trigger] ws[i].id != #[trigger] ws[j].id
}

/// Each workspace is stored under its own identifier.
pub open spec fn keys_match(keys: Seq<Seq<char>>, ws: Seq<WorkspaceView>) -> bool {
    keys.len() == ws.len() && forall|i: int| 0 <= i < ws.len() ==> #[trigger] keys[i] == ws[i].id
}

/// The workspace with identifier `id`, where there is one.
pub open spec fn workspace_at(ws: Seq<WorkspaceView>, id: Seq<char>, i: int) -> bool {
    0 <= i < ws.len() && ws[i].id == id
}

pub open spec fn has_workspace(ws: Seq<WorkspaceView>, id: Seq<char>) -> bool {
    exists|i: int| #[trigger] workspace_at(ws, id, i)
}

/// A newly created workspace, not yet sent to any client.
pub open spec fn new_workspace_view(id: Seq<char>, name: Seq<char>, coordinates: (u32, u32), active: bool) -> WorkspaceView {
    WorkspaceView { id, name, coordinates, active, instances: Seq::empty() }
}

/// The handles with those of `objects` dropped.
pub open spec fn handles_without(hs: Map<u32, Seq<char>>, objects: Seq<u32>) -> Map<u32, Seq<char>> {
    hs.remove_keys(objects.to_set())
}

/// The handles after a workspace was sent as `object`: the object stands for workspace `id`,
/// whatever it stood for before.
pub open spec fn handles_after_send(hs: Map<u32, Seq<char>>, object: u32, id: Seq<char>) -> Map<u32, Seq<char>> {
    hs.insert(object, id)
}

/// The workspace a workspace object stands for, by identifier.
pub open spec fn handle_target(hs: Map<u32, Seq<char>>, object: u32) -> Option<Seq<char>> {
    if hs.contains_key(object) {
        Some(hs[object])
    } else {
        None
    }
}

/// Whether the workspace with identifier `id` is active, where there is one.
pub open spec fn workspace_active(ws: Seq<WorkspaceView>, id: Seq<char>) -> Option<bool> {
    if has_workspace(ws, id) {
        Some(ws[choose|i: int| workspace_at(ws, id, i)].active)
    } else {
        None
    }
}

/// The workspace a client's activation (`activate`) or deactivation request on `object`
/// is queued for: the workspace the object stands for, when it exists and is not already in
/// the state asked for.
pub open spec fn spec_request_target(v: WorkspaceRegistryView, object: u32, activate: bool) -> Option<Seq<char>> {
    match handle_target(v.handles, object) {
        Some(id) => if workspace_active(v.workspaces, id) == Some(!activate) {
            Some(id)
        } else {
            None
        },
        None => None,
    }
}

/// A workspace after a change: what is given replaces what it had.
pub open spec fn changed_view(w: WorkspaceView, name: Option<Seq<char>>, coordinates: Option<(u32, u32)>, is_active: Option<bool>) -> WorkspaceView {
    WorkspaceView {
        name: match name {
            Some(n) => n,
            None => w.name,
        },
        coordinates: match coordinates {
            Some(c) => c,
            None => w.coordinates,
        },
        active: match is_active {
            Some(a) => a,
            None => w.active,
        },
        ..w
    }
}

/// The first workspace that was sent as `object`.
pub open spec fn first_with_instance(ws: Seq<WorkspaceView>, object: u32, i: int) -> bool {
    &&& 0 <= i < ws.len()
    &&& ws[i].instances.contains(object)
    &&& forall|j: int| 0 <= j < i ==> !(#[trigger] ws[j].instances).contains(object)
}

pub open spec fn without_instance(instances: Seq<u32>, object: u32) -> Seq<u32> {
    instances.filter(|o: u32| o != object)
}

impl WorkspaceRegistry {
    pub open spec fn wf(&self) -> bool {
        ids_distinct(self@.workspaces) && keys_match(self@.keys, self@.workspaces)
    }

    pub fn new() -> (r: WorkspaceRegistry)
        ensures
            r.wf(),
            r@.workspaces.len() == 0,
            r@.handles == Map::<u32, Seq<char>>::empty(),
    {
        let r = WorkspaceRegistry { workspaces: workspace_map_new(), handles: HashMap::new() };
        assert(r@.handles =~= Map::empty());
        r
    }

    fn find_workspace(&self, id: &String) -> (r: Option<usize>)
        requires
            self.wf(),
        ensures
            match r {
                Some(i) => workspace_at(self@.workspaces, id@, i as int),
                None => !has_workspace(self@.workspaces, id@),
            },
    {
        let r = workspace_map_index_of(&self.workspaces, id);
        proof {
            match r {
                Some(i) => {
                    assert(self@.keys[i as int] == self@.workspaces[i as int].id);
                },
                None => {
                    assert forall|i: int| !workspace_at(self@.workspaces, id@, i) by {
                        if 0 <= i < self@.workspaces.len() {
                            assert(self@.keys[i] == self@.workspaces[i].id);
                            assert(self@.keys[i] != id@);
                        }
                    }
                },
            }
        }
        r
    }

    /// Puts `w` in place of the workspace at `i`, which has the same identifier.
    fn replace_at(&mut self, i: usize, w: Workspace)
        requires
            old(self).wf(),
            i < old(self)@.workspaces.len(),
            w@.id == old(self)@.workspaces[i as int].id,
        ensures
            final(self).wf(),
            final(self)@.workspaces == old(self)@.workspaces.update(i as int, w@),
            final(self)@.handles == old(self)@.handles,
    {
        let ghost ws0 = self@.workspaces;
        let ghost ks0 = self@.keys;
        let ghost wv = w@;
        let key = w.id.clone();
        let r = workspace_map_insert(&mut self.workspaces, key, w);
        proof {
            match r {
                Some(_) => {
                    let j = choose|j: int|
                        0 <= j < ks0.len() && #[trigger] ks0[j] == wv.id && workspace_entries(self.workspaces)
                            == ws0.update(j, wv) && workspace_keys(self.workspaces) == ks0;
                    assert(ks0[j] == ws0[j].id);
                    if j != i as int {
                        assert(ws0[j].id != ws0[i as int].id);
                    }
                },
                None => {
                    assert(ks0[i as int] == ws0[i as int].id);
                    assert(ks0[i as int] != wv.id);
                },
            }
            assert forall|a: int| 0 <= a < self@.workspaces.len() implies #[trigger] self@.keys[a]
                == self@.workspaces[a].id by {
                assert(ks0[a] == ws0[a].id);
            }
            assert forall|a: int, b: int|
                0 <= a < self@.workspaces.len() && 0 <= b < self@.workspaces.len() && a != b implies
                #[trigger] self@.workspaces[a].id != #[trigger] self@.workspaces[b].id by {
                assert(self@.workspaces[a].id == ws0[a].id);
                assert(self@.workspaces[b].id == ws0[b].id);
            }
        }
    }

    /// A workspace was created.  A new identifier is appended; an identifier already known
    /// keeps its place and gets the new workspace, sent to no client yet.  The workspace's
    /// position is returned.
    pub fn workspace_created(&mut self, id: String, name: String, coordinates: (u32, u32), is_active: bool) -> (r: usize)
        requires
            old(self).wf(),
        ensures
            final(self).wf(),
            final(self)@.handles == old(self)@.handles,
            has_workspace(old(self)@.workspaces, id@) ==> workspace_at(old(self)@.workspaces, id@, r as int)
                && final(self)@.workspaces == old(self)@.workspaces.update(
                r as int,
                new_workspace_view(id@, name@, coordinates, is_active),
            ),
            !has_workspace(old(self)@.workspaces, id@) ==> r == old(self)@.workspaces.len()
                && final(self)@.workspaces == old(self)@.workspaces.push(
                new_workspace_view(id@, name@, coordinates, is_active),
            ),
    {
        let ghost before = self@.workspaces;
        let ghost kbefore = self@.keys;
        let w = Workspace {
            id: id.clone(),
            info: WorkspaceInfo { name, coordinates, active: is_active },
            instances: Vec::new(),
        };
        assert(w@ == new_workspace_view(id@, w.info.name@, coordinates, is_active)) by {
            assert(w.instances@ =~= Seq::<u32>::empty());
        }
        match self.find_workspace(&id) {
            Some(i) => {
                self.replace_at(i, w);
                i
            },
            None => {
                let n = workspace_map_len(&self.workspaces);
                let r = workspace_map_insert(&mut self.workspaces, id, w);
                proof {
                    if r is Some {
                        let j = choose|j: int|
                            0 <= j < kbefore.len() && #[trigger] kbefore[j] == id@ && workspace_entries(
                                self.workspaces,
                            ) == before.update(j, w@);
                        assert(kbefore[j] == before[j].id);
                        assert(workspace_at(before, id@, j));
                    }
                    assert(self@.workspaces == before.push(w@));
                    assert(self@.keys == kbefore.push(id@));
                    assert forall|a: int| 0 <= a < self@.workspaces.len() implies #[trigger] self@.keys[a]
                        == self@.workspaces[a].id by {
                        if a < n as int {
                            assert(kbefore[a] == before[a].id);
                        }
                    }
                    assert forall|i: int, j: int|
                        0 <= i < self@.workspaces.len() && 0 <= j < self@.workspaces.len() && i != j implies
                        #[trigger] self@.workspaces[i].id != #[trigger] self@.workspaces[j].id by {
                        if i == n as int {
                            assert(!workspace_at(before, id@, j));
                        } else if j == n as int {
                            assert(!workspace_at(before, id@, i));
                        }
                    }
                }
                n
            },
        }
    }

    /// The workspace at `index` was sent to a client as object `object`.  The object now
    /// stands for that workspace, whatever it stood for before.
    pub fn instance_sent(&mut self, index: usize, object: u32)
        requires
            old(self).wf(),
            index < old(self)@.workspaces.len(),
        ensures
            final(self).wf(),
            final(self)@.workspaces == old(self)@.workspaces.update(
                index as int,
                WorkspaceView {
                    instances: old(self)@.workspaces[index as int].instances.push(object),
                    ..old(self)@.workspaces[index as int]
                },
            ),
            final(self)@.handles == handles_after_send(old(self)@.handles, object, old(self)@.workspaces[index as int].id),
    {
        let ghost ws0 = self@.workspaces;
        let ghost hs0 = self@.handles;
        let mut w = clone_workspace(workspace_map_at(&self.workspaces, index));
        w.instances.push(object);
        let id = w.id.clone();
        proof {
            assert(w@ == WorkspaceView { instances: ws0[index as int].instances.push(object), ..ws0[index as int] });
        }
        self.replace_at(index, w);
        let ghost idv = id@;
        self.handles.insert(object, id);
        proof {
            assert(self@.handles =~= hs0.insert(object, idv));
        }
    }

    /// A workspace changed: it is found by identifier and changed as `WorkspaceInfo::apply_change`
    /// says; the changes to announce and the objects to announce them on are returned.
    pub fn workspace_changed(
        &mut self,
        id: &String,
        name: Option<String>,
        coordinates: Option<(u32, u32)>,
        is_active: Option<bool>,
    ) -> (r: Option<(WorkspaceChanges, Vec<u32>)>)
        requires
            old(self).wf(),
        ensures
            final(self).wf(),
            final(self)@.handles == old(self)@.handles,
            !has_workspace(old(self)@.workspaces, id@) ==> r is None && final(self)@ == old(self)@,
            has_workspace(old(self)@.workspaces, id@) ==> exists|i: int| #[trigger] workspace_at(old(self)@.workspaces, id@, i)
                && final(self)@.workspaces == old(self)@.workspaces.update(
                i,
                changed_view(old(self)@.workspaces[i], crate::util::ov(name), coordinates, is_active),
            ) && (r matches Some((c, objects)) && crate::util::ov(c.name) == crate::util::ov(name)
                && c.coordinates == coordinates && c.active == (match is_active {
                Some(a) => if a != old(self)@.workspaces[i].active { Some(a) } else { None },
                None => None,
            }) && objects@ == old(self)@.workspaces[i].instances),
    {
        match self.find_workspace(id) {
            None => None,
            Some(i) => {
                let ghost ws0 = self@.workspaces;
                let mut w = clone_workspace(workspace_map_at(&self.workspaces, i));
                let changes = w.info.apply_change(name, coordinates, is_active);
                let objects = w.instances.clone();
                proof {
                    assert(w@ == changed_view(ws0[i as int], crate::util::ov(name), coordinates, is_active));
                }
                self.replace_at(i, w);
                Some((changes, objects))
            },
        }
    }

    /// A workspace was destroyed: it leaves the list, keeping the others in order, and its
    /// objects stand for nothing any more.  The objects it was sent as are returned.
    pub fn workspace_destroyed(&mut self, id: &String) -> (r: Option<Vec<u32>>)
        requires
            old(self).wf(),
        ensures
            final(self).wf(),
            !has_workspace(old(self)@.workspaces, id@) ==> r is None && final(self)@ == old(self)@,
            has_workspace(old(self)@.workspaces, id@) ==> exists|i: int| #[trigger] workspace_at(old(self)@.workspaces, id@, i)
                && final(self)@.workspaces == old(self)@.workspaces.remove(i)
                && final(self)@.handles == handles_without(old(self)@.handles, old(self)@.workspaces[i].instances)
                && (r matches Some(objects) && objects@ == old(self)@.workspaces[i].instances),
    {
        match self.find_workspace(id) {
            None => None,
            Some(i) => {
                let ghost ws0 = self@.workspaces;
                let ghost ks0 = self@.keys;
                let ghost hs0 = self@.handles;
                let removed = workspace_map_shift_remove(&mut self.workspaces, id);
                proof {
                    assert(ws0[i as int].id == id@);
                    assert(ks0[i as int] == ws0[i as int].id);
                }
                let w = match removed {
                    Some(w) => w,
                    None => {
                        return None;
                    },
                };
                proof {
                    let j = choose|j: int|
                        0 <= j < ks0.len() && #[trigger] ks0[j] == id@ && removed->0@ == ws0[j]
                            && workspace_entries(self.workspaces) == ws0.remove(j)
                            && workspace_keys(self.workspaces) == ks0.remove(j);
                    assert(ks0[j] == ws0[j].id);
                    if j != i as int {
                        assert(ws0[j].id != ws0[i as int].id);
                    }
                    assert(self@.workspaces == ws0.remove(i as int));
                    assert(self@.keys == ks0.remove(i as int));
                    assert forall|a: int| 0 <= a < self@.workspaces.len() implies #[trigger] self@.keys[a]
                        == self@.workspaces[a].id by {
                        let a0 = if a < i { a } else { a + 1 };
                        assert(ks0[a0] == ws0[a0].id);
                    }
                    assert(w@ == ws0[i as int]);
                    assert forall|a: int, b: int|
                        0 <= a < self@.workspaces.len() && 0 <= b < self@.workspaces.len() && a != b implies
                        #[trigger] self@.workspaces[a].id != #[trigger] self@.workspaces[b].id by {
                        let a0 = if a < i { a } else { a + 1 };
                        let b0 = if b < i { b } else { b + 1 };
                        assert(self@.workspaces[a] == ws0[a0]);
                        assert(self@.workspaces[b] == ws0[b0]);
                    }
                }
                let ghost ws1 = self@.workspaces;
                let ghost ks1 = self@.keys;
                proof {
                    assert(hs0.remove_keys(w@.instances.subrange(0, 0).to_set()) =~= hs0);
                }
                let mut k: usize = 0;
                while k < w.instances.len()
                    invariant
                        0 <= k <= w.instances@.len(),
                        w@.instances == ws0[i as int].instances,
                        self@.handles == handles_without(hs0, w@.instances.subrange(0, k as int)),
                        self@.workspaces == ws1,
                        self@.keys == ks1,
                        ws1 == ws0.remove(i as int),
                        ids_distinct(ws1),
                        keys_match(ks1, ws1),
                    decreases w.instances@.len() - k,
                {
                    let obj = w.instances[k];
                    let ghost before = self@.handles;
                    self.handles.remove(&obj);
                    proof {
                        assert(self@.handles =~= before.remove(obj));
                        let s0 = w@.instances.subrange(0, k as int);
                        let s1 = w@.instances.subrange(0, k as int + 1);
                        assert(s1 =~= s0.push(obj));
                        assert forall|x: u32| s1.contains(x) <==> (s0.contains(x) || x == obj) by {
                            if s1.contains(x) {
                                let j = choose|j: int| 0 <= j < s1.len() && s1[j] == x;
                                if j < s0.len() {
                                    assert(s0[j] == x);
                                }
                            }
                            if s0.contains(x) {
                                let j = choose|j: int| 0 <= j < s0.len() && s0[j] == x;
                                assert(s1[j] == x);
                            }
                            if x == obj {
                                assert(s1[k as int] == x);
                            }
                        }
                        assert(s1.to_set() =~= s0.to_set().insert(obj));
                        assert(self@.handles =~= handles_without(hs0, w@.instances.subrange(0, k as int + 1)));
                    }
                    k = k + 1;
                }
                proof {
                    assert(w@.instances.subrange(0, w@.instances.len() as int) =~= w@.instances);
                }
                Some(w.instances)
            },
        }
    }

    /// The objects a workspace was sent as; none for an unknown identifier.
    pub fn workspace_handles_for_id(&self, id: &String) -> (r: Vec<u32>)
        requires
            self.wf(),
        ensures
            !has_workspace(self@.workspaces, id@) ==> r@.len() == 0,
            forall|i: int| #[trigger] workspace_at(self@.workspaces, id@, i) ==> r@ == self@.workspaces[i].instances,
    {
        match self.find_workspace(id) {
            Some(i) => {
                workspace_map_at(&self.workspaces, i).instances.clone()
            },
            None => Vec::new(),
        }
    }

    /// The identifier of the first workspace sent as `object`.
    pub fn workspace_id_for_handle(&self, object: u32) -> (r: Option<String>)
        ensures
            match r {
                Some(id) => exists|i: int| #[trigger] first_with_instance(self@.workspaces, object, i)
                    && self@.workspaces[i].id == id@,
                None => forall|i: int| 0 <= i < self@.workspaces.len() ==> !(#[trigger] self@.workspaces[i].instances).contains(object),
            },
    {
        let n = workspace_map_len(&self.workspaces);
        let mut i: usize = 0;
        while i < n
            invariant
                0 <= i <= n,
                n == self@.workspaces.len(),
                forall|j: int| 0 <= j < i ==> !(#[trigger] self@.workspaces[j].instances).contains(object),
            decreases n - i,
        {
            let w = workspace_map_at(&self.workspaces, i);
            if crate::util::contains_u32(&w.instances, object) {
                let id = w.id.clone();
                assert(first_with_instance(self@.workspaces, object, i as int));
                return Some(id);
            }
            i = i + 1;
        }
        None
    }

    /// The workspace an activation (`activate`) or deactivation request on `object` is to be
    /// queued for; `None` when the request is to be dropped.
    pub fn request_target(&self, object: u32, activate: bool) -> (r: Option<String>)
        requires
            self.wf(),
        ensures
            crate::util::ov(r) == spec_request_target(self@, object, activate),
    {
        match self.handles.get(&object) {
            None => None,
            Some(id) => {
                match self.find_workspace(id) {
                    None => None,
                    Some(i) => {
                        let ghost ws = self@.workspaces;
                        proof {
                            let c = choose|c: int| workspace_at(ws, id@, c);
                            assert(workspace_at(ws, id@, c));
                            assert(c == i as int);
                        }
                        if workspace_map_at(&self.workspaces, i).info.active != activate {
                            Some(id.clone())
                        } else {
                            None
                        }
                    },
                }
            },
        }
    }

    /// A client destroyed a workspace object: it stands for nothing any more, and the
    /// workspace it stood for forgets it.
    pub fn handle_destroyed(&mut self, object: u32)
        requires
            old(self).wf(),
        ensures
            final(self).wf(),
            final(self)@.handles == old(self)@.handles.remove(object),
            !old(self)@.handles.contains_key(object) ==> final(self)@ == old(self)@,
            old(self)@.handles.contains_key(object) ==> {
                let id = old(self)@.handles[object];
                &&& (!has_workspace(old(self)@.workspaces, id) ==> final(self)@.workspaces == old(self)@.workspaces)
                &&& forall|i: int| #[trigger] workspace_at(old(self)@.workspaces, id, i)
                    ==> final(self)@.workspaces == old(self)@.workspaces.update(
                    i,
                    WorkspaceView {
                        instances: without_instance(old(self)@.workspaces[i].instances, object),
                        ..old(self)@.workspaces[i]
                    },
                )
            },
    {
        let ghost hs0 = self@.handles;
        let ghost ws0 = self@.workspaces;
        let removed = self.handles.remove(&object);
        proof {
            assert(self@.handles =~= hs0.remove(object));
        }
        match removed {
            None => {
                assert(self@.handles =~= hs0);
            },
            Some(id) => {
                proof {
                    assert(id@ == hs0[object]);
                }
                match self.find_workspace(&id) {
                    None => {},
                    Some(i) => {
                        let mut w = clone_workspace(workspace_map_at(&self.workspaces, i));
                        let ghost insts = w.instances@;
                        let mut kept: Vec<u32> = Vec::new();
                        let mut j: usize = 0;
                        while j < w.instances.len()
                            invariant
                                0 <= j <= w.instances@.len(),
                                w.instances@ == insts,
                                kept@ == without_instance(insts.subrange(0, j as int), object),
                            decreases w.instances@.len() - j,
                        {
                            proof {
                                let s = insts.subrange(0, j as int + 1);
                                assert(s.drop_last() =~= insts.subrange(0, j as int));
                                reveal_with_fuel(Seq::filter, 1);
                            }
                            if w.instances[j] != object {
                                kept.push(w.instances[j]);
                            }
                            j = j + 1;
                        }
                        proof {
                            assert(insts.subrange(0, insts.len() as int) =~= insts);
                        }
                        w.instances = kept;
                        proof {
                            assert(w@ == WorkspaceView { instances: without_instance(ws0[i as int].instances, object), ..ws0[i as int] });
                        }
                        self.replace_at(i, w);
                        proof {
                            assert forall|c: int| #[trigger] workspace_at(ws0, id@, c) implies c == i as int by {
                                if c != i as int {
                                    assert(ws0[c].id != ws0[i as int].id);
                                }
                            }
                        }
                    },
                }
            },
        }
    }
}

/// The one workspace group: the outputs it is on and the group objects clients hold.
pub struct WorkspaceGroup {
    pub outputs: Vec<u64>,
    pub instances: Vec<u32>,
}

impl WorkspaceGroup {
    pub fn new() -> (r: WorkspaceGroup)
        ensures
            r.outputs@.len() == 0,
            r.instances@.len() == 0,
    {
        WorkspaceGroup { outputs: Vec::new(), instances: Vec::new() }
    }

    /// The group is on a new output; every group object is told (returned).
    pub fn output_enter(&mut self, output: u64) -> (r: Vec<u32>)
        ensures
            final(self).outputs@ == old(self).outputs@.push(output),
            final(self).instances@ == old(self).instances@,
            r@ == old(self).instances@,
    {
        self.outputs.push(output);
        self.instances.clone()
    }

    /// The group left an output: every entry for it goes; every group object is told.
    pub fn output_leave(&mut self, output: u64) -> (r: Vec<u32>)
        ensures
            final(self).outputs@ == old(self).outputs@.filter(|o: u64| o != output),
            final(self).instances@ == old(self).instances@,
            r@ == old(self).instances@,
    {
        self.outputs = crate::util::without_u64(&self.outputs, output);
        self.instances.clone()
    }

    /// A group object was sent to a client.
    pub fn instance_sent(&mut self, object: u32)
        ensures
            final(self).instances@ == old(self).instances@.push(object),
            final(self).outputs@ == old(self).outputs@,
    {
        self.instances.push(object);
    }

    /// A group object was destroyed: it is told nothing more.
    pub fn instance_destroyed(&mut self, object: u32)
        ensures
            final(self).instances@ == old(self).instances@.filter(|o: u32| o != object),
            final(self).outputs@ == old(self).outputs@,
    {
        self.instances = crate::util::without_u32(&self.instances, object);
    }
}

/// The workspace objects a toplevel object is to enter: those of its own client, in order,
/// that it has not entered yet.  Handles are `(object, client)`.
pub open spec fn spec_handles_to_enter(handles: Seq<(u32, u64)>, client: u64, entered: Seq<u32>) -> Seq<u32>
    decreases handles.len(),
{
    if handles.len() == 0 {
        Seq::empty()
    } else {
        let rest = spec_handles_to_enter(handles.drop_last(), client, entered);
        let h = handles.last();
        if h.1 == client && !entered.contains(h.0) {
            rest.push(h.0)
        } else {
            rest
        }
    }
}

pub fn handles_to_enter(handles: &Vec<(u32, u64)>, client: u64, entered: &Vec<u32>) -> (r: Vec<u32>)
    ensures
        r@ == spec_handles_to_enter(handles@, client, entered@),
{
    let mut r: Vec<u32> = Vec::new();
    let mut i: usize = 0;
    while i < handles.len()
        invariant
            0 <= i <= handles@.len(),
            r@ == spec_handles_to_enter(handles@.subrange(0, i as int), client, entered@),
        decreases handles@.len() - i,
    {
        let (object, owner) = handles[i];
        proof {
            assert(handles@.subrange(0, i as int + 1).drop_last() =~= handles@.subrange(0, i as int));
            assert(handles@.subrange(0, i as int + 1).last() == handles@[i as int]);
        }
        if owner == client && !crate::util::contains_u32(entered, object) {
            r.push(object);
        }
        i = i + 1;
    }
    assert(handles@.subrange(0, handles@.len() as int) =~= handles@);
    r
}

/// A workspace object stands for the workspace it was last sent as: an activation or
/// deactivation request on it is resolved to that workspace.
pub proof fn lemma_sent_object_stands_for_workspace(hs: Map<u32, Seq<char>>, object: u32, id: Seq<char>)
    ensures
        handle_target(handles_after_send(hs, object, id), object) == Some(id),
{
}

/// Once a workspace is destroyed, the objects it was sent as stand for nothing: requests on
/// them are dropped.
pub proof fn lemma_destroyed_objects_stand_for_nothing(hs: Map<u32, Seq<char>>, objects: Seq<u32>, object: u32)
    requires
        objects.contains(object),
    ensures
        handle_target(handles_without(hs, objects), object) is None,
{
    assert(objects.to_set().contains(object));
}

} // verus!
