//! The resource watcher registry.
//!
//! Each resource (a project) may have one background watcher observing
//! its storage. [`ActiveProjects`] records which resources have one:
//! activating a resource that already has a watcher returns success at
//! once and starts nothing; activating a fresh resource runs the
//! caller-supplied watcher start and records the handle only if the
//! start succeeded, so a failed start leaves no partial entry. The
//! check-then-create sequence is one call on the registry; the caller
//! keeps the registry behind a single lock so that the sequence is
//! atomic under concurrent activation.
//!
//! A watcher reports domain changes as [`Change`] values;
//! [`event_for_change`] maps each variant to the wire event the hub fans
//! out, with a deterministic topic built from the resource id and the
//! change kind. The mapping is exhaustive over the variant set.

use vstd::prelude::*;
use vstd::string::StringExecFns;

use crate::broadcaster::{EventPayload, FrontendEvent};

verus! {

/// A domain change notification: the closed variant set a watcher can
/// report, each carrying the id of the resource it concerns.
#[derive(Debug)]
pub enum Change {
    GitFetch(String),
    GitHead { project_id: String, head: String, operating_mode: String },
    GitActivity(String),
    WorktreeChanges { project_id: String, changes: serde_json::Value },
}

/// The topic under which a change of a given kind for a given resource
/// is broadcast: the resource id framed by the scheme and the kind's
/// suffix, so that the topic alone routes the event on the client side.
pub open spec fn topic_text(project_id: Seq<char>, suffix: Seq<char>) -> Seq<char> {
    "project://"@ + project_id + suffix
}

/// Builds a topic from a resource id and a change-kind suffix.
fn topic(project_id: &String, suffix: &str) -> (r: String)
    ensures
        r@ == topic_text(project_id@, suffix@),
{
    String::from_str("project://").concat(project_id.as_str()).concat(suffix)
}

/// Maps one change notification to the wire event broadcast for it. The
/// mapping is exhaustive: every variant yields an event whose topic is
/// the resource id under the variant's suffix, and whose payload carries
/// the variant's fields — empty for a fetch or plain activity, the head
/// fields for a head move, and the change data itself for a worktree
/// change.
pub fn event_for_change(change: Change) -> (e: FrontendEvent)
    ensures
        (change matches Change::GitFetch(project_id) ==> e.name@ == topic_text(
            project_id@,
            "/git/fetch"@,
        ) && e.payload == EventPayload::Empty),
        (change matches Change::GitHead { project_id, head, operating_mode } ==> e.name@
            == topic_text(project_id@, "/git/head"@) && e.payload == (EventPayload::Head {
            head,
            operating_mode,
        })),
        (change matches Change::GitActivity(project_id) ==> e.name@ == topic_text(
            project_id@,
            "/git/activity"@,
        ) && e.payload == EventPayload::Empty),
        (change matches Change::WorktreeChanges { project_id, changes } ==> e.name@
            == topic_text(project_id@, "/worktree_changes"@) && e.payload
            == EventPayload::Data(changes)),
{
    match change {
        Change::GitFetch(project_id) => FrontendEvent {
            name: topic(&project_id, "/git/fetch"),
            payload: EventPayload::Empty,
        },
        Change::GitHead { project_id, head, operating_mode } => FrontendEvent {
            name: topic(&project_id, "/git/head"),
            payload: EventPayload::Head { head, operating_mode },
        },
        Change::GitActivity(project_id) => FrontendEvent {
            name: topic(&project_id, "/git/activity"),
            payload: EventPayload::Empty,
        },
        Change::WorktreeChanges { project_id, changes } => FrontendEvent {
            name: topic(&project_id, "/worktree_changes"),
            payload: EventPayload::Data(changes),
        },
    }
}

/// Reply data for an activation request: information to help the caller
/// communicate what happened with the project.
#[derive(Debug, Clone)]
pub struct ProjectInfo {
    /// Whether the caller is the first to open the project.
    pub is_exclusive: bool,
    /// A display version of a database error met while opening, if any.
    pub db_error: Option<String>,
    /// Extra information about the project just opened, if any.
    pub headsup: Option<String>,
}

impl ProjectInfo {
    /// The reply for an activation that went through: exclusive, with
    /// nothing to warn about.
    pub fn exclusive() -> (r: ProjectInfo)
        ensures
            r.is_exclusive,
            r.db_error matches Option::None,
            r.headsup matches Option::None,
    {
        ProjectInfo { is_exclusive: true, db_error: None, headsup: None }
    }
}

/// The registry of resources with a running watcher: at most one entry,
/// and so at most one watcher handle, per resource id. Entries live for
/// the process's duration: no teardown path exists.
pub struct ActiveProjects<H> {
    projects: Vec<(String, H)>,
}

impl<H> ActiveProjects<H> {
    /// The ids of the resources with a running watcher, in activation
    /// order.
    pub closed spec fn ids(&self) -> Seq<Seq<char>> {
        self.projects@.map_values(|p: (String, H)| p.0@)
    }

    /// Well-formed: each resource id has at most one entry.
    pub closed spec fn wf(&self) -> bool {
        forall|i: int, j: int|
            0 <= i < j < self.ids().len() ==> self.ids()[i] != self.ids()[j]
    }

    /// Whether a resource currently has a watcher.
    pub open spec fn active(&self, id: Seq<char>) -> bool {
        self.ids().contains(id)
    }

    /// The position of an active resource's entry.
    pub closed spec fn index_of(&self, id: Seq<char>) -> int {
        choose|i: int| 0 <= i < self.ids().len() && self.ids()[i] == id
    }

    /// The handle recorded for an active resource.
    pub closed spec fn handle_of(&self, id: Seq<char>) -> H {
        self.projects@[self.index_of(id)].1
    }

    /// An active resource has exactly one entry.
    proof fn lemma_index_of(&self, id: Seq<char>)
        requires
            self.wf(),
            self.active(id),
        ensures
            0 <= self.index_of(id) < self.projects@.len(),
            self.ids()[self.index_of(id)] == id,
            forall|i: int|
                0 <= i < self.ids().len() && self.ids()[i] == id ==> i == self.index_of(
                    id,
                ),
    {
        assert forall|i: int|
            0 <= i < self.ids().len() && self.ids()[i] == id implies i == self.index_of(
            id,
        ) by {
            if i < self.index_of(id) {
                assert(self.ids()[i] != self.ids()[self.index_of(id)]);
            } else if i > self.index_of(id) {
                assert(self.ids()[self.index_of(id)] != self.ids()[i]);
            }
        }
    }

    /// An empty registry: no resource watched.
    pub fn new() -> (r: ActiveProjects<H>)
        ensures
            r.wf(),
            r.ids() == Seq::<Seq<char>>::empty(),
    {
        let r = ActiveProjects { projects: Vec::new() };
        proof {
            assert(r.ids() =~= Seq::<Seq<char>>::empty());
        }
        r
    }

    /// Whether a resource currently has a watcher.
    pub fn is_active(&self, project_id: &String) -> (r: bool)
        ensures
            r == self.active(project_id@),
    {
        let n = self.projects.len();
        let mut i: usize = 0;
        while i < n
            invariant
                n == self.projects@.len(),
                i <= n,
                forall|j: int| 0 <= j < i ==> self.ids()[j] != project_id@,
            decreases n - i,
        {
            if self.projects[i].0 == *project_id {
                assert(self.ids()[i as int] == project_id@);
                return true;
            }
            i += 1;
        }
        false
    }

    /// Activates a resource. If a watcher already runs for it, nothing
    /// is started and nothing changes: two sequential activations of the
    /// same resource start exactly one watcher. Otherwise the supplied
    /// start runs; its handle is recorded under the resource id only if
    /// it succeeded, so a failed start leaves no partial entry. Entries
    /// of other resources are never touched, and a recorded handle is
    /// never replaced.
    pub fn set_active<F: FnOnce() -> Result<H, String>>(
        &mut self,
        project_id: &String,
        start_watcher: F,
    ) -> (r: Result<bool, String>)
        requires
            old(self).wf(),
            call_requires(start_watcher, ()),
        ensures
            final(self).wf(),
            old(self).active(project_id@) ==> r == Ok::<bool, String>(false) && *final(self)
                == *old(self),
            !old(self).active(project_id@) ==> match r {
                Ok(started) => started && final(self).active(project_id@) && (exists|h: H|
                    call_ensures(start_watcher, (), Ok::<H, String>(h))
                        && final(self).handle_of(project_id@) == h),
                Err(m) => *final(self) == *old(self) && call_ensures(
                    start_watcher,
                    (),
                    Err::<H, String>(m),
                ),
            },
            r matches Ok(_) ==> final(self).active(project_id@),
            forall|k: Seq<char>|
                k != project_id@ ==> (final(self).active(k) <==> old(self).active(k)),
            forall|k: Seq<char>|
                k != project_id@ && old(self).active(k) ==> final(self).handle_of(k)
                    == old(self).handle_of(k),
    {
        if self.is_active(project_id) {
            return Ok(false);
        }
        match start_watcher() {
            Ok(handle) => {
                let id = project_id.clone();
                self.projects.push((id, handle));
                proof {
                    self.lemma_push_preserves(*old(self), project_id@);
                }
                Ok(true)
            },
            Err(message) => Err(message),
        }
    }

    /// After appending an entry for a fresh resource id, the registry's
    /// view is: the new id is active with the appended handle,
    /// everything else is as before.
    proof fn lemma_push_preserves(&self, pre: ActiveProjects<H>, id: Seq<char>)
        requires
            pre.wf(),
            !pre.active(id),
            self.projects@ == pre.projects@.push(
                (self.projects@[pre.projects@.len() as int].0, self.projects@[pre.projects@.len() as int].1),
            ),
            self.projects@[pre.projects@.len() as int].0@ == id,
        ensures
            self.wf(),
            self.active(id),
            self.handle_of(id) == self.projects@[pre.projects@.len() as int].1,
            forall|k: Seq<char>| k != id ==> (self.active(k) <==> pre.active(k)),
            forall|k: Seq<char>|
                k != id && pre.active(k) ==> self.handle_of(k) == pre.handle_of(k),
    {
        let n = pre.projects@.len() as int;
        assert(self.ids() =~= pre.ids().push(id));
        assert(self.wf()) by {
            assert forall|i: int, j: int|
                0 <= i < j < self.ids().len() implies self.ids()[i] != self.ids()[j] by {
                if j < n {
                    assert(pre.ids()[i] != pre.ids()[j]);
                } else {
                    assert(self.ids()[j] == id);
                    assert(self.ids()[i] == pre.ids()[i]);
                    assert(pre.ids().contains(pre.ids()[i]));
                }
            }
        }
        assert(self.active(id)) by {
            assert(self.ids()[n] == id);
        }
        self.lemma_index_of(id);
        assert(self.index_of(id) == n);
        assert forall|k: Seq<char>|
            k != id ==> (self.active(k) <==> pre.active(k)) by {
            if k != id && self.active(k) {
                let w = choose|i: int|
                    0 <= i < self.ids().len() && self.ids()[i] == k;
                assert(w != n);
                assert(pre.ids()[w] == k);
                assert(pre.active(k));
            }
            if pre.active(k) {
                let w = choose|i: int|
                    0 <= i < pre.ids().len() && pre.ids()[i] == k;
                assert(self.ids()[w] == k);
                assert(self.active(k));
            }
        }
        assert forall|k: Seq<char>|
            k != id && pre.active(k) implies self.handle_of(k) == pre.handle_of(k) by {
            pre.lemma_index_of(k);
            assert(self.active(k));
            self.lemma_index_of(k);
            let j = pre.index_of(k);
            assert(self.ids()[j] == k);
            assert(self.index_of(k) == j);
            assert(self.projects@[j] == pre.projects@[j]);
        }
    }
}

} // verus!
