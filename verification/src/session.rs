//! Session management (xdg-session-management): which session a client gets when it asks for
//! one, and the named toplevels each session keeps.

use vstd::prelude::*;
use crate::util::str_eq;
use crate::foreign_toplevel::{is_alphanumeric, new_session_id};

verus! {

/// A session the compositor keeps: the protocol object it belongs to, its identifier, and the
/// client that holds it while that client is connected.
pub struct SessionRecord {
    pub instance: u64,
    pub id: String,
    pub client: Option<u64>,
}

/// How a request for a session is answered.
#[derive(Debug, PartialEq, Eq)]
pub enum NewSessionStatus {
    /// A new session with a fresh identifier.
    CreateNew,
    /// The session another client held is taken over; that client is told it was replaced.
    Replaced { id: String, previous_instance: u64 },
    /// A session the compositor knows of but nobody holds is restored.
    Exists(String),
}

/// Why a request for a session was refused.
#[derive(Clone, Copy, Debug, PartialEq, Eq, Structural)]
pub enum SessionError {
    /// The requesting client holds that session already.
    InUse,
}

pub open spec fn holds_session(sessions: Seq<SessionRecord>, id: Seq<char>, i: int) -> bool {
    0 <= i < sessions.len() && sessions[i].id@ == id && sessions[i].client.is_some()
}

/// The first live session with identifier `id`, if any.
pub open spec fn first_holder(sessions: Seq<SessionRecord>, id: Seq<char>) -> Option<int> {
    if exists|i: int| holds_session(sessions, id, i) && forall|j: int| 0 <= j < i ==> !holds_session(sessions, id, j) {
        Some(choose|i: int| holds_session(sessions, id, i) && forall|j: int| 0 <= j < i ==> !holds_session(sessions, id, j))
    } else {
        None
    }
}

/// What becomes of a request for a session.  Without an identifier, or with one nobody holds
/// and the compositor does not know, a new session is made.  A session the requesting client
/// holds is refused; one another client holds is taken over; one the compositor knows of is
/// restored.
pub open spec fn spec_session_status(
    sessions: Seq<SessionRecord>,
    requested: Option<Seq<char>>,
    client: u64,
    known: bool,
) -> Result<(int, Seq<char>, int), SessionError> {
    match requested {
        None => Ok((0, Seq::empty(), -1)),
        Some(id) => match first_holder(sessions, id) {
            Some(i) => if sessions[i].client == Some(client) {
                Err(SessionError::InUse)
            } else {
                Ok((1, id, sessions[i].instance as int))
            },
            None => if known {
                Ok((2, id, -1))
            } else {
                Ok((0, Seq::empty(), -1))
            },
        },
    }
}

pub open spec fn status_view(s: NewSessionStatus) -> (int, Seq<char>, int) {
    match s {
        NewSessionStatus::CreateNew => (0, Seq::empty(), -1),
        NewSessionStatus::Replaced { id, previous_instance } => (1, id@, previous_instance as int),
        NewSessionStatus::Exists(id) => (2, id@, -1),
    }
}

pub open spec fn status_result_view(r: Result<NewSessionStatus, SessionError>) -> Result<(int, Seq<char>, int), SessionError> {
    match r {
        Ok(s) => Ok(status_view(s)),
        Err(e) => Err(e),
    }
}

/// Decides how to answer a request for a session.  `known` is whether the compositor knows of
/// a session with the requested identifier; it is asked only when nobody holds one.
pub fn session_status(
    sessions: &Vec<SessionRecord>,
    requested: Option<String>,
    client: u64,
    known: bool,
) -> (r: Result<NewSessionStatus, SessionError>)
    ensures
        status_result_view(r) == spec_session_status(sessions@, crate::util::ov(requested), client, known),
{
    let ghost req = crate::util::ov(requested);
    match requested {
        None => Ok(NewSessionStatus::CreateNew),
        Some(id) => {
            let ghost idv = id@;
            assert(req == Some(idv));
            let mut i: usize = 0;
            while i < sessions.len()
                invariant
                    0 <= i <= sessions@.len(),
                    idv == id@,
                    req == Some(idv),
                    req == crate::util::ov(requested),
                    forall|j: int| 0 <= j < i ==> !holds_session(sessions@, idv, j),
                decreases sessions@.len() - i,
            {
                if sessions[i].client.is_some() && str_eq(&sessions[i].id, &id) {
                    proof {
                        let s = sessions@;
                        assert(holds_session(s, idv, i as int));
                        let c = choose|k: int| holds_session(s, idv, k) && forall|j: int| 0 <= j < k ==> !holds_session(s, idv, j);
                        assert(holds_session(s, idv, c) && forall|j: int| 0 <= j < c ==> !holds_session(s, idv, j));
                        if c < i {
                            assert(!holds_session(s, idv, c));
                        }
                        if c > i {
                            assert(!holds_session(s, idv, i as int));
                        }
                        assert(first_holder(s, idv) == Some(i as int));
                    }
                    if sessions[i].client == Some(client) {
                        return Err(SessionError::InUse);
                    } else {
                        return Ok(NewSessionStatus::Replaced { id, previous_instance: sessions[i].instance });
                    }
                }
                i = i + 1;
            }
            assert(first_holder(sessions@, idv).is_none());
            if known {
                Ok(NewSessionStatus::Exists(id))
            } else {
                Ok(NewSessionStatus::CreateNew)
            }
        },
    }
}

/// A toplevel a session keeps under a name: the protocol object that stands for it and the
/// toplevel itself, both by number.
pub struct ToplevelEntry {
    pub instance: u64,
    pub toplevel: u64,
    pub name: String,
}

pub struct ToplevelEntryView {
    pub instance: u64,
    pub toplevel: u64,
    pub name: Seq<char>,
}

impl View for ToplevelEntry {
    type V = ToplevelEntryView;

    open spec fn view(&self) -> ToplevelEntryView {
        ToplevelEntryView { instance: self.instance, toplevel: self.toplevel, name: self.name@ }
    }
}

/// The named toplevels of a session.
pub struct SessionToplevels {
    pub entries: Vec<ToplevelEntry>,
}

/// Why a request on a session's toplevels was refused.
#[derive(Clone, Copy, Debug, PartialEq, Eq, Structural)]
pub enum ToplevelSessionError {
    /// Another toplevel of the session has that name.
    NameInUse,
    /// The toplevel is in the session already.
    AlreadyInSession,
}

pub open spec fn entries_view(s: Seq<ToplevelEntry>) -> Seq<ToplevelEntryView> {
    s.map_values(|e: ToplevelEntry| e@)
}

pub open spec fn name_used(s: Seq<ToplevelEntryView>, name: Seq<char>) -> bool {
    exists|i: int| 0 <= i < s.len() && (#[trigger] s[i]).name == name
}

pub open spec fn toplevel_present(s: Seq<ToplevelEntryView>, t: u64) -> bool {
    exists|i: int| 0 <= i < s.len() && (#[trigger] s[i]).toplevel == t
}

pub open spec fn instance_present(s: Seq<ToplevelEntryView>, inst: u64) -> bool {
    exists|i: int| 0 <= i < s.len() && (#[trigger] s[i]).instance == inst
}

/// Names and protocol objects are each used once.
pub open spec fn entries_wf(s: Seq<ToplevelEntryView>) -> bool {
    forall|i: int, j: int|
        0 <= i < s.len() && 0 <= j < s.len() && i != j ==> (#[trigger] s[i]).name != (#[trigger] s[j]).name
            && s[i].instance != s[j].instance
}

impl SessionToplevels {
    pub open spec fn view_entries(&self) -> Seq<ToplevelEntryView> {
        entries_view(self.entries@)
    }

    pub fn new() -> (r: SessionToplevels)
        ensures
            r.view_entries().len() == 0,
    {
        SessionToplevels { entries: Vec::new() }
    }

    fn find_name(&self, name: &String) -> (r: Option<usize>)
        ensures
            match r {
                Some(i) => i < self.entries@.len() && self.view_entries()[i as int].name == name@,
                None => !name_used(self.view_entries(), name@),
            },
    {
        let mut i: usize = 0;
        while i < self.entries.len()
            invariant
                0 <= i <= self.entries@.len(),
                forall|j: int| 0 <= j < i ==> self.view_entries()[j].name != name@,
            decreases self.entries@.len() - i,
        {
            if str_eq(&self.entries[i].name, name) {
                return Some(i);
            }
            i = i + 1;
        }
        None
    }

    fn find_toplevel(&self, t: u64) -> (r: bool)
        ensures
            r == toplevel_present(self.view_entries(), t),
    {
        let mut i: usize = 0;
        while i < self.entries.len()
            invariant
                0 <= i <= self.entries@.len(),
                forall|j: int| 0 <= j < i ==> self.view_entries()[j].toplevel != t,
            decreases self.entries@.len() - i,
        {
            if self.entries[i].toplevel == t {
                assert(self.view_entries()[i as int].toplevel == t);
                return true;
            }
            i = i + 1;
        }
        false
    }

    fn find_instance(&self, inst: u64) -> (r: Option<usize>)
        ensures
            match r {
                Some(i) => i < self.entries@.len() && self.view_entries()[i as int].instance == inst,
                None => !instance_present(self.view_entries(), inst),
            },
    {
        let mut i: usize = 0;
        while i < self.entries.len()
            invariant
                0 <= i <= self.entries@.len(),
                forall|j: int| 0 <= j < i ==> self.view_entries()[j].instance != inst,
            decreases self.entries@.len() - i,
        {
            if self.entries[i].instance == inst {
                return Some(i);
            }
            i = i + 1;
        }
        None
    }

    /// Adds a toplevel under a name, through a new protocol object `instance`.
    pub fn add(&mut self, instance: u64, toplevel: u64, name: String) -> (r: Result<(), ToplevelSessionError>)
        requires
            entries_wf(old(self).view_entries()),
            !instance_present(old(self).view_entries(), instance),
        ensures
            entries_wf(final(self).view_entries()),
            r == (if name_used(old(self).view_entries(), name@) {
                Err(ToplevelSessionError::NameInUse)
            } else if toplevel_present(old(self).view_entries(), toplevel) {
                Err(ToplevelSessionError::AlreadyInSession)
            } else {
                Ok(())
            }),
            r is Ok ==> final(self).view_entries() == old(self).view_entries().push(
                ToplevelEntryView { instance, toplevel, name: name@ },
            ),
            r is Err ==> final(self).view_entries() == old(self).view_entries(),
    {
        if self.find_name(&name).is_some() {
            return Err(ToplevelSessionError::NameInUse);
        }
        if self.find_toplevel(toplevel) {
            return Err(ToplevelSessionError::AlreadyInSession);
        }
        let ghost old_v = self.view_entries();
        let ghost nv = name@;
        self.entries.push(ToplevelEntry { instance, toplevel, name });
        assert(self.view_entries() =~= old_v.push(ToplevelEntryView { instance, toplevel, name: nv }));
        proof {
            let s = self.view_entries();
            assert forall|i: int, j: int|
                0 <= i < s.len() && 0 <= j < s.len() && i != j implies (#[trigger] s[i]).name != (#[trigger] s[j]).name
                && s[i].instance != s[j].instance by {
                if i == old_v.len() as int {
                    assert(s[j] == old_v[j]);
                } else if j == old_v.len() as int {
                    assert(s[i] == old_v[i]);
                } else {
                    assert(s[i] == old_v[i] && s[j] == old_v[j]);
                }
            }
        }
        Ok(())
    }

    /// Removes the toplevel kept under `name`, giving back its protocol object and toplevel.
    pub fn remove_by_name(&mut self, name: &String) -> (r: Option<(u64, u64)>)
        requires
            entries_wf(old(self).view_entries()),
        ensures
            entries_wf(final(self).view_entries()),
            r.is_some() == name_used(old(self).view_entries(), name@),
            match r {
                Some((inst, t)) => exists|i: int|
                    0 <= i < old(self).view_entries().len() && old(self).view_entries()[i] == (ToplevelEntryView {
                        instance: inst,
                        toplevel: t,
                        name: name@,
                    }) && final(self).view_entries() == old(self).view_entries().remove(i),
                None => final(self).view_entries() == old(self).view_entries(),
            },
    {
        match self.find_name(name) {
            Some(i) => {
                let ghost old_v = self.view_entries();
                let e = self.entries.remove(i);
                assert(self.view_entries() =~= old_v.remove(i as int));
                proof {
                    let s = self.view_entries();
                    assert forall|a: int, b: int|
                        0 <= a < s.len() && 0 <= b < s.len() && a != b implies (#[trigger] s[a]).name != (
                        #[trigger] s[b]).name && s[a].instance != s[b].instance by {
                        let oa = if a < i { a } else { a + 1 };
                        let ob = if b < i { b } else { b + 1 };
                        assert(s[a] == old_v[oa] && s[b] == old_v[ob]);
                    }
                }
                Some((e.instance, e.toplevel))
            },
            None => None,
        }
    }

    /// Renames the toplevel whose protocol object is `instance`.  A name another toplevel of
    /// the session uses is refused; an unknown object changes nothing.
    pub fn rename(&mut self, instance: u64, name: String) -> (r: Result<bool, ToplevelSessionError>)
        requires
            entries_wf(old(self).view_entries()),
        ensures
            entries_wf(final(self).view_entries()),
            !instance_present(old(self).view_entries(), instance) ==> r == Ok::<bool, ToplevelSessionError>(false)
                && final(self).view_entries() == old(self).view_entries(),
            instance_present(old(self).view_entries(), instance) && name_used(old(self).view_entries(), name@)
                ==> r == Err::<bool, ToplevelSessionError>(ToplevelSessionError::NameInUse)
                && final(self).view_entries() == old(self).view_entries(),
            instance_present(old(self).view_entries(), instance) && !name_used(old(self).view_entries(), name@)
                ==> r == Ok::<bool, ToplevelSessionError>(true) && exists|i: int|
                0 <= i < old(self).view_entries().len() && old(self).view_entries()[i].instance == instance
                    && final(self).view_entries() == old(self).view_entries().update(
                    i,
                    ToplevelEntryView { name: name@, ..old(self).view_entries()[i] },
                ),
    {
        match self.find_instance(instance) {
            None => Ok(false),
            Some(i) => {
                if self.find_name(&name).is_some() {
                    return Err(ToplevelSessionError::NameInUse);
                }
                let ghost old_v = self.view_entries();
                let ghost nv = name@;
                let e = ToplevelEntry { instance: self.entries[i].instance, toplevel: self.entries[i].toplevel, name };
                self.entries.set(i, e);
                assert(self.view_entries() =~= old_v.update(i as int, ToplevelEntryView { name: nv, ..old_v[i as int] }));
                proof {
                    let s = self.view_entries();
                    assert forall|a: int, b: int|
                        0 <= a < s.len() && 0 <= b < s.len() && a != b implies (#[trigger] s[a]).name != (
                        #[trigger] s[b]).name && s[a].instance != s[b].instance by {
                        if a == i {
                            assert(s[b] == old_v[b]);
                            assert(old_v[b].name != nv);
                        } else if b == i {
                            assert(s[a] == old_v[a]);
                            assert(old_v[a].name != nv);
                        } else {
                            assert(s[a] == old_v[a] && s[b] == old_v[b]);
                        }
                    }
                }
                Ok(true)
            },
        }
    }

    /// Forgets the toplevel whose protocol object is `instance`, when its object goes away.
    pub fn forget_instance(&mut self, instance: u64) -> (r: bool)
        requires
            entries_wf(old(self).view_entries()),
        ensures
            entries_wf(final(self).view_entries()),
            r == instance_present(old(self).view_entries(), instance),
            r ==> exists|i: int|
                0 <= i < old(self).view_entries().len() && old(self).view_entries()[i].instance == instance
                    && final(self).view_entries() == old(self).view_entries().remove(i),
            !r ==> final(self).view_entries() == old(self).view_entries(),
    {
        match self.find_instance(instance) {
            Some(i) => {
                let ghost old_v = self.view_entries();
                self.entries.remove(i);
                assert(self.view_entries() =~= old_v.remove(i as int));
                proof {
                    let s = self.view_entries();
                    assert forall|a: int, b: int|
                        0 <= a < s.len() && 0 <= b < s.len() && a != b implies (#[trigger] s[a]).name != (
                        #[trigger] s[b]).name && s[a].instance != s[b].instance by {
                        let oa = if a < i { a } else { a + 1 };
                        let ob = if b < i { b } else { b + 1 };
                        assert(s[a] == old_v[oa] && s[b] == old_v[ob]);
                    }
                }
                true
            },
            None => false,
        }
    }
}

/// A toplevel added under a fresh name and then removed by that name comes back, and the
/// session's toplevels are as they were.
pub proof fn lemma_add_then_remove(s: Seq<ToplevelEntryView>, e: ToplevelEntryView, i: int)
    requires
        entries_wf(s),
        !name_used(s, e.name),
        0 <= i < s.len() + 1,
        s.push(e)[i].name == e.name,
    ensures
        i == s.len(),
        s.push(e).remove(i) == s,
{
    if i < s.len() {
        assert(s.push(e)[i] == s[i]);
        assert(name_used(s, e.name));
    }
    assert(s.push(e).remove(i) =~= s);
}


/// The sessions the compositor keeps.
pub struct SessionRegistry {
    pub sessions: Vec<SessionRecord>,
}

/// What the client is told of the session it got.
#[derive(Debug, PartialEq, Eq)]
pub enum SessionReply {
    /// A new session, with its fresh identifier.
    Created(String),
    /// A known session, restored.
    Restored,
    /// A session another client held; that client's session object, `previous_instance`, is
    /// told it was replaced.
    Replaced { previous_instance: u64 },
}

impl SessionRegistry {
    pub fn new() -> (r: SessionRegistry)
        ensures
            r.sessions@.len() == 0,
    {
        SessionRegistry { sessions: Vec::new() }
    }

    /// Answers a request for a session through the new session object `instance`.  On success
    /// the session is kept under that object, held by `client`.
    pub fn get_session(&mut self, instance: u64, client: u64, requested: Option<String>, known: bool) -> (r: Result<
        SessionReply,
        SessionError,
    >)
        ensures
            ({
                let st = spec_session_status(old(self).sessions@, crate::util::ov(requested), client, known);
                &&& r is Err <==> st is Err
                &&& r is Err ==> final(self).sessions@ == old(self).sessions@
                &&& r is Ok ==> {
                    &&& final(self).sessions@.len() == old(self).sessions@.len() + 1
                    &&& final(self).sessions@.subrange(0, old(self).sessions@.len() as int) == old(self).sessions@
                    &&& final(self).sessions@.last().instance == instance
                    &&& final(self).sessions@.last().client == Some(client)
                    &&& match st {
                        Ok((kind, id, prev)) => if kind == 0 {
                            &&& final(self).sessions@.last().id@.len() == 32
                            &&& (forall|k: int| 0 <= k < 32 ==> is_alphanumeric(#[trigger] final(self).sessions@.last().id@[k]))
                            &&& r matches Ok(SessionReply::Created(new_id)) && new_id@ == final(self).sessions@.last().id@
                        } else if kind == 1 {
                            &&& final(self).sessions@.last().id@ == id
                            &&& r == Ok::<SessionReply, SessionError>(SessionReply::Replaced { previous_instance: prev as u64 })
                        } else {
                            &&& final(self).sessions@.last().id@ == id
                            &&& r == Ok::<SessionReply, SessionError>(SessionReply::Restored)
                        },
                        Err(_) => true,
                    }
                }
            }),
    {
        let status = session_status(&self.sessions, requested, client, known);
        match status {
            Err(e) => Err(e),
            Ok(NewSessionStatus::CreateNew) => {
                let id = new_session_id();
                let reply_id = id.clone();
                self.sessions.push(SessionRecord { instance, id, client: Some(client) });
                Ok(SessionReply::Created(reply_id))
            },
            Ok(NewSessionStatus::Exists(id)) => {
                self.sessions.push(SessionRecord { instance, id, client: Some(client) });
                Ok(SessionReply::Restored)
            },
            Ok(NewSessionStatus::Replaced { id, previous_instance }) => {
                self.sessions.push(SessionRecord { instance, id, client: Some(client) });
                Ok(SessionReply::Replaced { previous_instance })
            },
        }
    }

    /// Forgets the session kept under `instance`, when it is removed or its object goes away.
    pub fn remove(&mut self, instance: u64) -> (r: bool)
        ensures
            r == exists|i: int| 0 <= i < old(self).sessions@.len() && old(self).sessions@[i].instance == instance,
            r ==> exists|i: int|
                0 <= i < old(self).sessions@.len() && old(self).sessions@[i].instance == instance
                    && final(self).sessions@ == old(self).sessions@.remove(i),
            !r ==> final(self).sessions@ == old(self).sessions@,
    {
        let mut i: usize = 0;
        while i < self.sessions.len()
            invariant
                0 <= i <= self.sessions@.len(),
                self.sessions@ == old(self).sessions@,
                forall|j: int| 0 <= j < i ==> self.sessions@[j].instance != instance,
            decreases self.sessions@.len() - i,
        {
            if self.sessions[i].instance == instance {
                self.sessions.remove(i);
                return true;
            }
            i = i + 1;
        }
        false
    }
}

} // verus!
