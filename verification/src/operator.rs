//! The operator: brings a node pool up when there are pods for it and down when
//! there are none.
//!
//! A pass over a managed pool is a session. It asks for one thing at a time (a
//! call to the cloud, to Kubernetes or to the clock), is resumed with the reply,
//! and ends with the action to take next.

use crate::model::{
    ManagedNodePool, ManagedNodePoolStatus, ManagedNodePoolStatusView, ManagedNodePoolView,
    NodePool, NodePoolSettings, NodePoolSettingsView, NodePoolStatus, NodePoolView, Pod, PodView,
};
use crate::pods::{has_pool_label, list_pods, patch_pod, FIELD_SELECTOR_PENDING};
use crate::pool::{needs_update, patch_pool_settings, MetadataError, LABEL_MANAGED_NODE_POOL};
use crate::time::{Duration, Timestamp, NANOS_PER_SEC};
use std::sync::Arc;
use vstd::prelude::*;

verus! {

pub const FINALIZER_NAME: &'static str = "dgolubets.github.io/managed-node-pool-cleanup";

/// How long a pass that found nothing more to do waits for the next one.
pub const REQUEUE_SECS: u64 = 3600;

/// How long a pass that failed waits for the next one.
pub const ERROR_REQUEUE_SECS: u64 = 5;

/// How long changes of a pool are gathered before a pass starts.
pub const DEBOUNCE_SECS: u64 = 5;

/// What happens after a pass.
#[derive(Clone, Copy, Debug, PartialEq, Eq)]
pub enum Action {
    /// Another pass starts after this time.
    Requeue(Duration),
    /// Another pass starts when the pool or one of its pods changes.
    AwaitChange,
}

pub enum ActionView {
    Requeue(nat),
    AwaitChange,
}

impl View for Action {
    type V = ActionView;

    open spec fn view(&self) -> ActionView {
        match self {
            Action::Requeue(after) => ActionView::Requeue(after@),
            Action::AwaitChange => ActionView::AwaitChange,
        }
    }
}

/// Why a pass failed. `E` is what failed calls report.
#[derive(Debug)]
pub enum OperatorError<E> {
    Metadata(MetadataError),
    /// The reply is of another kind than the session asked for.
    UnexpectedReply,
    Call(E),
}

/// What a session asks for.
#[derive(Debug)]
pub enum Request {
    FindPoolById { id: String },
    FindPoolByName { name: String },
    CreatePool { settings: NodePoolSettings },
    UpdatePoolById { id: String, settings: NodePoolSettings },
    DestroyPoolById { id: String },
    ListPodsWithLabels { label_selector: String },
    ListPodsWithFields { field_selector: String },
    PatchPod { pod: Pod, manager: String },
    PatchPoolStatus { status: ManagedNodePoolStatus, manager: String },
    ReadClock,
}

pub enum RequestView {
    FindPoolById { id: Seq<char> },
    FindPoolByName { name: Seq<char> },
    CreatePool { settings: NodePoolSettingsView },
    UpdatePoolById { id: Seq<char>, settings: NodePoolSettingsView },
    DestroyPoolById { id: Seq<char> },
    ListPodsWithLabels { label_selector: Seq<char> },
    ListPodsWithFields { field_selector: Seq<char> },
    PatchPod { pod: PodView, manager: Seq<char> },
    PatchPoolStatus { status: ManagedNodePoolStatusView, manager: Seq<char> },
    ReadClock,
}

impl View for Request {
    type V = RequestView;

    open spec fn view(&self) -> RequestView {
        match self {
            Request::FindPoolById { id } => RequestView::FindPoolById { id: id@ },
            Request::FindPoolByName { name } => RequestView::FindPoolByName { name: name@ },
            Request::CreatePool { settings } => RequestView::CreatePool { settings: settings@ },
            Request::UpdatePoolById { id, settings } => RequestView::UpdatePoolById {
                id: id@,
                settings: settings@,
            },
            Request::DestroyPoolById { id } => RequestView::DestroyPoolById { id: id@ },
            Request::ListPodsWithLabels { label_selector } => RequestView::ListPodsWithLabels {
                label_selector: label_selector@,
            },
            Request::ListPodsWithFields { field_selector } => RequestView::ListPodsWithFields {
                field_selector: field_selector@,
            },
            Request::PatchPod { pod, manager } => RequestView::PatchPod {
                pod: pod@,
                manager: manager@,
            },
            Request::PatchPoolStatus { status, manager } => RequestView::PatchPoolStatus {
                status: status@,
                manager: manager@,
            },
            Request::ReadClock => RequestView::ReadClock,
        }
    }
}

/// What came back.
#[derive(Debug)]
pub enum Reply<E> {
    /// The pool that was looked up, if it exists.
    Found(Option<NodePool>),
    Created(NodePool),
    Updated(NodePool),
    /// Whether there was a pool to destroy.
    Destroyed(bool),
    Pods(Vec<Pod>),
    Patched,
    Clock(Timestamp),
    Failed(E),
}

pub enum ReplyView<E> {
    Found(Option<NodePoolView>),
    Created(NodePoolView),
    Updated(NodePoolView),
    Destroyed(bool),
    Pods(Seq<PodView>),
    Patched,
    Clock(int),
    Failed(E),
}

impl<E> View for Reply<E> {
    type V = ReplyView<E>;

    open spec fn view(&self) -> ReplyView<E> {
        match *self {
            Reply::Found(pool) => ReplyView::Found(pool.deep_view()),
            Reply::Created(pool) => ReplyView::Created(pool@),
            Reply::Updated(pool) => ReplyView::Updated(pool@),
            Reply::Destroyed(existed) => ReplyView::Destroyed(existed),
            Reply::Pods(pods) => ReplyView::Pods(pods.deep_view()),
            Reply::Patched => ReplyView::Patched,
            Reply::Clock(now) => ReplyView::Clock(now@),
            Reply::Failed(e) => ReplyView::Failed(e),
        }
    }
}

/// Where a session stands: what it has asked for last, and why.
#[derive(Clone, Copy, Debug, PartialEq, Eq, Structural)]
pub enum Phase {
    /// Looks up the node pool that the status records.
    LookingUp,
    /// Blanks the status: the recorded node pool is gone.
    ResettingLost,
    /// Applies changed sizes to the node pool.
    Updating,
    /// Looks for a node pool that was being created and may exist by now.
    SyncingByName,
    /// Records the node pool that was found by name.
    RecordingSynced,
    /// Blanks the status: the node pool that was being created does not exist.
    ResettingUnsynced,
    ListingLabeled,
    ListingPending,
    /// Marks a listed pod that lacks the label.
    PatchingPod,
    /// The pool is idle: has its time come?
    ReadingDeadline,
    /// The pool is idle and may stay: how long?
    ReadingRemaining,
    /// The pool has become idle: from when on does its time count?
    ReadingSchedule,
    /// Records when the idle pool is to go.
    RecordingSchedule,
    Destroying,
    /// Blanks the status: the node pool has been destroyed.
    ResettingDestroyed,
    /// Records that a node pool is about to be created.
    RecordingCreating,
    Creating,
    /// Records the node pool that was created.
    RecordingCreated,
    /// The managed pool is being deleted: destroys its node pool.
    CleaningUp,
}

/// One pass over a managed pool, waiting for a reply.
#[derive(Debug)]
pub struct Session {
    pool: Arc<ManagedNodePool>,
    node_pool: Option<NodePool>,
    pods: Vec<Pod>,
    position: usize,
    deadline: Option<Timestamp>,
    phase: Phase,
}

pub struct SessionView {
    /// The managed pool as it was when the pass started.
    pub pool: ManagedNodePoolView,
    /// Its node pool, as far as it is known.
    pub node_pool: Option<NodePoolView>,
    /// The pods that were listed.
    pub pods: Seq<PodView>,
    /// The index of the pod that is being marked.
    pub position: int,
    /// When the idle pool is to go, once that is settled.
    pub deadline: Option<int>,
    pub phase: Phase,
}

impl View for Session {
    type V = SessionView;

    closed spec fn view(&self) -> SessionView {
        SessionView {
            pool: self.pool@,
            node_pool: self.node_pool.deep_view(),
            pods: self.pods.deep_view(),
            position: self.position as int,
            deadline: self.deadline.deep_view(),
            phase: self.phase,
        }
    }
}

/// How far a pass has come.
#[derive(Debug)]
pub enum Progress<E> {
    Pending(Session),
    Done(Result<Action, OperatorError<E>>),
}

pub enum ProgressView<E> {
    Pending(SessionView),
    Done(Result<ActionView, OperatorError<E>>),
}

impl<E> View for Progress<E> {
    type V = ProgressView<E>;

    open spec fn view(&self) -> ProgressView<E> {
        match *self {
            Progress::Pending(session) => ProgressView::Pending(session@),
            Progress::Done(Ok(action)) => ProgressView::Done(Ok(action@)),
            Progress::Done(Err(e)) => ProgressView::Done(Err(e)),
        }
    }
}

/// The id of the node pool that the status records.
pub open spec fn recorded_id(pool: ManagedNodePoolView) -> Option<Seq<char>> {
    match pool.status {
        Some(status) => status.node_pool_id,
        None => None,
    }
}

/// When the idle pool is to go, as far as the status records it.
pub open spec fn recorded_deadline(pool: ManagedNodePoolView) -> Option<int> {
    match pool.status {
        Some(status) => status.destroy_after,
        None => None,
    }
}

/// Whether a node pool was being created and its id was never recorded.
pub open spec fn awaits_sync(pool: ManagedNodePoolView) -> bool {
    pool.status matches Some(status) && status.node_pool_id is None && status.node_pool_status
        == Some(NodePoolStatus::CREATING)
}

/// The status that records a pool that is about to be created.
pub open spec fn creating_status() -> ManagedNodePoolStatusView {
    ManagedNodePoolStatusView {
        node_pool_id: None,
        node_pool_status: Some(NodePoolStatus::CREATING),
        destroy_after: None,
    }
}

/// The status that records a pool that exists.
pub open spec fn created_status(id: Seq<char>) -> ManagedNodePoolStatusView {
    ManagedNodePoolStatusView {
        node_pool_id: Some(id),
        node_pool_status: Some(NodePoolStatus::CREATED),
        destroy_after: None,
    }
}

/// The index of the first pod from `start` on that does not carry the label, or
/// the number of pods.
pub open spec fn next_unlabeled(pods: Seq<PodView>, start: int) -> int
    decreases pods.len() - start,
{
    if start >= pods.len() {
        pods.len() as int
    } else if !crate::pods::is_labeled(pods[start]) {
        start
    } else {
        next_unlabeled(pods, start + 1)
    }
}

/// The end of a pass that leaves nothing to do.
pub open spec fn settled<E>() -> ProgressView<E> {
    ProgressView::Done(Ok(ActionView::Requeue((REQUEUE_SECS * NANOS_PER_SEC) as nat)))
}

/// A session that has just asked for what `phase` asks for, with no pods listed.
pub open spec fn early<E>(
    pool: ManagedNodePoolView,
    node_pool: Option<NodePoolView>,
    phase: Phase,
) -> ProgressView<E> {
    late(pool, node_pool, Seq::empty(), phase)
}

/// A session that has just asked for what `phase` asks for.
pub open spec fn late<E>(
    pool: ManagedNodePoolView,
    node_pool: Option<NodePoolView>,
    pods: Seq<PodView>,
    phase: Phase,
) -> ProgressView<E> {
    ProgressView::Pending(SessionView { pool, node_pool, pods, position: 0, deadline: None, phase })
}

/// The start of a pass over a pool that exists: first its node pool is looked up,
/// if the status records one.
pub open spec fn reconcile_start<E>(pool: ManagedNodePoolView) -> ProgressView<E> {
    if recorded_id(pool) is Some {
        early(pool, None, Phase::LookingUp)
    } else {
        after_lookup(pool, None)
    }
}

/// The start of a pass over a pool that is being deleted: its node pool is
/// destroyed, if the status records one.
pub open spec fn cleanup_start<E>(pool: ManagedNodePoolView) -> ProgressView<E> {
    if recorded_id(pool) is Some {
        early(pool, None, Phase::CleaningUp)
    } else {
        ProgressView::Done(Ok(ActionView::AwaitChange))
    }
}

/// Once it is known whether the recorded node pool exists: changed sizes are
/// applied to it.
pub open spec fn after_lookup<E>(
    pool: ManagedNodePoolView,
    node_pool: Option<NodePoolView>,
) -> ProgressView<E> {
    if node_pool matches Some(found) && crate::pool::sizes_differ(
        pool.spec.settings,
        found.settings,
    ) {
        match crate::pool::patched_settings(pool.spec.settings, pool) {
            Ok(_) => early(pool, node_pool, Phase::Updating),
            Err(e) => ProgressView::Done(Err(OperatorError::Metadata(e))),
        }
    } else {
        after_update(pool, node_pool)
    }
}

/// Once the sizes are right: a node pool that was being created is looked for,
/// then the pods are listed.
pub open spec fn after_update<E>(
    pool: ManagedNodePoolView,
    node_pool: Option<NodePoolView>,
) -> ProgressView<E> {
    if awaits_sync(pool) {
        early(pool, node_pool, Phase::SyncingByName)
    } else {
        early(pool, node_pool, Phase::ListingLabeled)
    }
}

/// Once the pods are known: those from `start` on that lack the label are marked,
/// one after another.
pub open spec fn mark_from<E>(
    pool: ManagedNodePoolView,
    node_pool: Option<NodePoolView>,
    pods: Seq<PodView>,
    start: int,
) -> ProgressView<E> {
    let i = next_unlabeled(pods, start);
    if i >= pods.len() {
        after_marking(pool, node_pool, pods)
    } else {
        match crate::pods::pod_patch(pods[i], pool) {
            Ok(_) => ProgressView::Pending(
                SessionView {
                    pool,
                    node_pool,
                    pods,
                    position: i,
                    deadline: None,
                    phase: Phase::PatchingPod,
                },
            ),
            Err(e) => ProgressView::Done(Err(OperatorError::Metadata(e))),
        }
    }
}

/// Once the pods are marked: a node pool without pods is on its way out, pods
/// without a node pool get one, and otherwise all is as it should be.
pub open spec fn after_marking<E>(
    pool: ManagedNodePoolView,
    node_pool: Option<NodePoolView>,
    pods: Seq<PodView>,
) -> ProgressView<E> {
    if node_pool is Some && pods.len() == 0 && recorded_id(pool) is Some {
        match (pool.spec.idle_timeout, recorded_deadline(pool)) {
            (None, _) => late(pool, node_pool, pods, Phase::Destroying),
            (Some(_), Some(_)) => late(pool, node_pool, pods, Phase::ReadingDeadline),
            (Some(_), None) => late(pool, node_pool, pods, Phase::ReadingSchedule),
        }
    } else if node_pool is None && pods.len() > 0 {
        late(pool, node_pool, pods, Phase::RecordingCreating)
    } else {
        settled()
    }
}

impl SessionView {
    /// The recorded node pool exists and no pod keeps it up.
    pub open spec fn is_idle(self) -> bool {
        self.node_pool is Some && self.pods.len() == 0 && recorded_id(self.pool) is Some
    }

    /// There are pods and no node pool for them.
    pub open spec fn has_demand(self) -> bool {
        self.node_pool is None && self.pods.len() > 0
    }

    /// What holds in each phase.
    pub open spec fn well_formed(self) -> bool {
        match self.phase {
            Phase::LookingUp | Phase::CleaningUp => recorded_id(self.pool) is Some,
            Phase::ResettingLost => recorded_id(self.pool) is Some && self.node_pool is None,
            Phase::Updating => self.node_pool is Some && crate::pool::patched_settings(
                self.pool.spec.settings,
                self.pool,
            ) is Ok,
            Phase::SyncingByName => awaits_sync(self.pool),
            Phase::RecordingSynced => awaits_sync(self.pool) && self.node_pool is Some,
            Phase::ResettingUnsynced => awaits_sync(self.pool) && self.node_pool is None,
            Phase::ListingLabeled | Phase::ListingPending => true,
            Phase::PatchingPod => 0 <= self.position < self.pods.len() && !crate::pods::is_labeled(
                self.pods[self.position],
            ) && crate::pods::pod_patch(self.pods[self.position], self.pool) is Ok,
            Phase::ReadingDeadline | Phase::ReadingRemaining => self.is_idle()
                && self.pool.spec.idle_timeout is Some && recorded_deadline(self.pool) is Some,
            Phase::ReadingSchedule => self.is_idle() && self.pool.spec.idle_timeout is Some
                && recorded_deadline(self.pool) is None,
            Phase::RecordingSchedule => self.is_idle() && self.pool.spec.idle_timeout is Some
                && recorded_deadline(self.pool) is None && self.deadline is Some,
            Phase::Destroying | Phase::ResettingDestroyed => self.is_idle() && (
            self.pool.spec.idle_timeout is None || recorded_deadline(self.pool) is Some),
            Phase::RecordingCreating => self.has_demand(),
            Phase::Creating => self.has_demand() && crate::pool::patched_settings(
                self.pool.spec.settings,
                self.pool,
            ) is Ok,
            Phase::RecordingCreated => self.node_pool is Some && self.pods.len() > 0,
        }
    }

    /// What the session asks for.
    pub open spec fn request(self) -> RequestView {
        match self.phase {
            Phase::LookingUp => RequestView::FindPoolById { id: recorded_id(self.pool)->0 },
            Phase::ResettingLost | Phase::ResettingUnsynced | Phase::ResettingDestroyed =>
                status_patch(ManagedNodePoolStatusView::blank()),
            Phase::Updating => RequestView::UpdatePoolById {
                id: self.node_pool->0.id,
                settings: crate::pool::patched_settings(self.pool.spec.settings, self.pool)->Ok_0,
            },
            Phase::SyncingByName => RequestView::FindPoolByName {
                name: self.pool.spec.settings.name,
            },
            Phase::RecordingSynced | Phase::RecordingCreated => status_patch(
                created_status(self.node_pool->0.id),
            ),
            Phase::ListingLabeled => RequestView::ListPodsWithLabels {
                label_selector: LABEL_MANAGED_NODE_POOL@,
            },
            Phase::ListingPending => RequestView::ListPodsWithFields {
                field_selector: FIELD_SELECTOR_PENDING@,
            },
            Phase::PatchingPod => RequestView::PatchPod {
                pod: crate::pods::pod_patch(self.pods[self.position], self.pool)->Ok_0,
                manager: LABEL_MANAGED_NODE_POOL@,
            },
            Phase::ReadingDeadline | Phase::ReadingRemaining | Phase::ReadingSchedule =>
                RequestView::ReadClock,
            Phase::RecordingSchedule => status_patch(
                ManagedNodePoolStatusView {
                    destroy_after: self.deadline,
                    ..self.pool.status->0
                },
            ),
            Phase::Destroying | Phase::CleaningUp => RequestView::DestroyPoolById {
                id: recorded_id(self.pool)->0,
            },
            Phase::RecordingCreating => status_patch(creating_status()),
            Phase::Creating => RequestView::CreatePool {
                settings: crate::pool::patched_settings(self.pool.spec.settings, self.pool)->Ok_0,
            },
        }
    }

    /// Whether the session can take this reply: the end of an idle timeout that
    /// starts now must be a point in time.
    pub open spec fn can_resume<E>(self, reply: ReplyView<E>) -> bool {
        self.phase == Phase::ReadingSchedule ==> (reply matches ReplyView::Clock(now) ==> now
            + self.pool.spec.idle_timeout->0 <= crate::time::last_timestamp())
    }

    /// How the session goes on with this reply.
    pub open spec fn next<E>(self, reply: ReplyView<E>) -> ProgressView<E> {
        match (self.phase, reply) {
            (_, ReplyView::Failed(e)) => ProgressView::Done(Err(OperatorError::Call(e))),
            (Phase::LookingUp, ReplyView::Found(Some(found))) => after_lookup(
                self.pool,
                Some(found),
            ),
            (Phase::LookingUp, ReplyView::Found(None)) => early(
                self.pool,
                None,
                Phase::ResettingLost,
            ),
            (Phase::ResettingLost, ReplyView::Patched) => after_lookup(self.pool, None),
            (Phase::Updating, ReplyView::Updated(_)) => after_update(self.pool, self.node_pool),
            (Phase::SyncingByName, ReplyView::Found(Some(found))) => early(
                self.pool,
                Some(found),
                Phase::RecordingSynced,
            ),
            (Phase::SyncingByName, ReplyView::Found(None)) => early(
                self.pool,
                None,
                Phase::ResettingUnsynced,
            ),
            (Phase::RecordingSynced, ReplyView::Patched) => early(
                self.pool,
                self.node_pool,
                Phase::ListingLabeled,
            ),
            (Phase::ResettingUnsynced, ReplyView::Patched) => early(
                self.pool,
                self.node_pool,
                Phase::ListingLabeled,
            ),
            (Phase::ListingLabeled, ReplyView::Pods(labeled)) => late(
                self.pool,
                self.node_pool,
                labeled,
                Phase::ListingPending,
            ),
            (Phase::ListingPending, ReplyView::Pods(pending)) => mark_from(
                self.pool,
                self.node_pool,
                crate::pods::listed_pods(self.pods, pending, self.pool),
                0,
            ),
            (Phase::PatchingPod, ReplyView::Patched) => mark_from(
                self.pool,
                self.node_pool,
                self.pods,
                self.position + 1,
            ),
            (Phase::ReadingDeadline, ReplyView::Clock(now)) => late(
                self.pool,
                self.node_pool,
                self.pods,
                if now < recorded_deadline(self.pool)->0 {
                    Phase::ReadingRemaining
                } else {
                    Phase::Destroying
                },
            ),
            (Phase::ReadingRemaining, ReplyView::Clock(now)) => {
                let deadline = recorded_deadline(self.pool)->0;
                ProgressView::Done(
                    Ok(
                        ActionView::Requeue(
                            if now <= deadline {
                                (deadline - now) as nat
                            } else {
                                0
                            },
                        ),
                    ),
                )
            },
            (Phase::ReadingSchedule, ReplyView::Clock(now)) => ProgressView::Pending(
                SessionView {
                    deadline: Some(now + self.pool.spec.idle_timeout->0),
                    phase: Phase::RecordingSchedule,
                    ..self
                },
            ),
            (Phase::RecordingSchedule, ReplyView::Patched) => ProgressView::Done(
                Ok(ActionView::Requeue(self.pool.spec.idle_timeout->0)),
            ),
            (Phase::Destroying, ReplyView::Destroyed(_)) => late(
                self.pool,
                self.node_pool,
                self.pods,
                Phase::ResettingDestroyed,
            ),
            (Phase::ResettingDestroyed, ReplyView::Patched) => settled(),
            (Phase::RecordingCreating, ReplyView::Patched) => match crate::pool::patched_settings(
                self.pool.spec.settings,
                self.pool,
            ) {
                Ok(_) => late(self.pool, self.node_pool, self.pods, Phase::Creating),
                Err(e) => ProgressView::Done(Err(OperatorError::Metadata(e))),
            },
            (Phase::Creating, ReplyView::Created(created)) => late(
                self.pool,
                Some(created),
                self.pods,
                Phase::RecordingCreated,
            ),
            (Phase::RecordingCreated, ReplyView::Patched) => settled(),
            (Phase::CleaningUp, ReplyView::Destroyed(_)) => ProgressView::Done(
                Ok(ActionView::AwaitChange),
            ),
            _ => ProgressView::Done(Err(OperatorError::UnexpectedReply)),
        }
    }
}

/// The request to write this status.
pub open spec fn status_patch(status: ManagedNodePoolStatusView) -> RequestView {
    RequestView::PatchPoolStatus { status, manager: LABEL_MANAGED_NODE_POOL@ }
}

/// Every phase that a session enters comes with what holds in it.
pub proof fn lemma_next_well_formed<E>(session: SessionView, reply: ReplyView<E>)
    requires
        session.well_formed(),
    ensures
        session.next(reply) matches ProgressView::Pending(next) ==> next.well_formed(),
{
    if session.phase == Phase::ListingPending {
        if let ReplyView::Pods(pending) = reply {
            lemma_next_unlabeled(
                crate::pods::listed_pods(session.pods, pending, session.pool),
                0,
            );
        }
    } else if session.phase == Phase::PatchingPod {
        lemma_next_unlabeled(session.pods, session.position + 1);
    }
}

/// What `next_unlabeled` finds.
pub proof fn lemma_next_unlabeled(pods: Seq<PodView>, start: int)
    requires
        0 <= start <= pods.len(),
    ensures
        start <= next_unlabeled(pods, start) <= pods.len(),
        forall|j: int|
            start <= j < next_unlabeled(pods, start) ==> crate::pods::is_labeled(
                #[trigger] pods[j],
            ),
        next_unlabeled(pods, start) < pods.len() ==> !crate::pods::is_labeled(
            pods[next_unlabeled(pods, start)],
        ),
    decreases pods.len() - start,
{
    if start < pods.len() && crate::pods::is_labeled(pods[start]) {
        lemma_next_unlabeled(pods, start + 1);
    }
}

impl Session {
    #[verifier::type_invariant]
    spec fn consistent(self) -> bool {
        self@.well_formed()
    }

    /// What the session asks for.
    pub fn request(&self) -> (request: Request)
        ensures
            request@ == self@.request(),
    {
        proof {
            use_type_invariant(self);
        }
        match self.phase {
            Phase::LookingUp => Request::FindPoolById { id: self.recorded_id() },
            Phase::ResettingLost | Phase::ResettingUnsynced | Phase::ResettingDestroyed =>
                patch_status(ManagedNodePoolStatus::default()),
            Phase::Updating => Request::UpdatePoolById {
                id: self.node_pool_id(),
                settings: self.patched_settings(),
            },
            Phase::SyncingByName => Request::FindPoolByName {
                name: self.pool.spec.settings.name.clone(),
            },
            Phase::RecordingSynced | Phase::RecordingCreated => patch_status(
                ManagedNodePoolStatus {
                    node_pool_id: Some(self.node_pool_id()),
                    node_pool_status: Some(NodePoolStatus::CREATED),
                    destroy_after: None,
                },
            ),
            Phase::ListingLabeled => Request::ListPodsWithLabels {
                label_selector: LABEL_MANAGED_NODE_POOL.to_owned(),
            },
            Phase::ListingPending => Request::ListPodsWithFields {
                field_selector: FIELD_SELECTOR_PENDING.to_owned(),
            },
            Phase::PatchingPod => match patch_pod(&self.pods[self.position], &self.pool) {
                Ok(pod) => Request::PatchPod { pod, manager: LABEL_MANAGED_NODE_POOL.to_owned() },
                Err(_) => vstd::pervasive::unreached(),
            },
            Phase::ReadingDeadline | Phase::ReadingRemaining | Phase::ReadingSchedule =>
                Request::ReadClock,
            Phase::RecordingSchedule => match &self.pool.status {
                Some(status) => {
                    let mut status = status.clone();
                    status.destroy_after = self.deadline;
                    patch_status(status)
                },
                None => vstd::pervasive::unreached(),
            },
            Phase::Destroying | Phase::CleaningUp => Request::DestroyPoolById {
                id: self.recorded_id(),
            },
            Phase::RecordingCreating => patch_status(
                ManagedNodePoolStatus {
                    node_pool_id: None,
                    node_pool_status: Some(NodePoolStatus::CREATING),
                    destroy_after: None,
                },
            ),
            Phase::Creating => Request::CreatePool { settings: self.patched_settings() },
        }
    }

    fn recorded_id(&self) -> (id: String)
        requires
            recorded_id(self@.pool) is Some,
        ensures
            id@ == recorded_id(self@.pool)->0,
    {
        match &self.pool.status {
            Some(ManagedNodePoolStatus { node_pool_id: Some(id), .. }) => id.clone(),
            _ => vstd::pervasive::unreached(),
        }
    }

    fn node_pool_id(&self) -> (id: String)
        requires
            self@.node_pool is Some,
        ensures
            id@ == self@.node_pool->0.id,
    {
        match &self.node_pool {
            Some(node_pool) => node_pool.id.clone(),
            None => vstd::pervasive::unreached(),
        }
    }

    fn patched_settings(&self) -> (settings: NodePoolSettings)
        requires
            crate::pool::patched_settings(self@.pool.spec.settings, self@.pool) is Ok,
        ensures
            settings@ == crate::pool::patched_settings(
                self@.pool.spec.settings,
                self@.pool,
            )->Ok_0,
    {
        match patch_pool_settings(self.pool.spec.settings.clone(), &self.pool) {
            Ok(settings) => settings,
            Err(_) => vstd::pervasive::unreached(),
        }
    }
}

impl Session {
    /// Whether the session can take this reply: the end of an idle timeout that
    /// starts now must be a point in time.
    pub fn can_resume<E>(&self, reply: &Reply<E>) -> (b: bool)
        ensures
            b == self@.can_resume(reply@),
    {
        proof {
            use_type_invariant(self);
        }
        match (self.phase, reply) {
            (Phase::ReadingSchedule, Reply::Clock(now)) => now.checked_add(
                self.idle_timeout(),
            ).is_some(),
            _ => true,
        }
    }

    fn idle_timeout(&self) -> (timeout: Duration)
        requires
            self@.pool.spec.idle_timeout is Some,
        ensures
            timeout@ == self@.pool.spec.idle_timeout->0,
    {
        match self.pool.spec.idle_timeout {
            Some(timeout) => timeout,
            None => vstd::pervasive::unreached(),
        }
    }

    fn recorded_deadline(&self) -> (deadline: Timestamp)
        requires
            recorded_deadline(self@.pool) is Some,
        ensures
            deadline@ == recorded_deadline(self@.pool)->0,
    {
        match &self.pool.status {
            Some(ManagedNodePoolStatus { destroy_after: Some(deadline), .. }) => *deadline,
            _ => vstd::pervasive::unreached(),
        }
    }

    /// Goes on with the reply to what the session has asked for.
    pub fn resume<E>(self, reply: Reply<E>) -> (progress: Progress<E>)
        requires
            self@.can_resume(reply@),
        ensures
            progress@ == self@.next(reply@),
    {
        proof {
            use_type_invariant(&self);
            lemma_next_well_formed(self@, reply@);
            assert(self.pods.len() == self@.pods.len());
        }
        match (self.phase, reply) {
            (_, Reply::Failed(e)) => Progress::Done(Err(OperatorError::Call(e))),
            (Phase::LookingUp, Reply::Found(Some(found))) => continue_after_lookup(
                self.pool,
                Some(found),
            ),
            (Phase::LookingUp, Reply::Found(None)) => enter_early(
                self.pool,
                None,
                Phase::ResettingLost,
            ),
            (Phase::ResettingLost, Reply::Patched) => continue_after_lookup(self.pool, None),
            (Phase::Updating, Reply::Updated(_)) => continue_after_update(
                self.pool,
                self.node_pool,
            ),
            (Phase::SyncingByName, Reply::Found(Some(found))) => enter_early(
                self.pool,
                Some(found),
                Phase::RecordingSynced,
            ),
            (Phase::SyncingByName, Reply::Found(None)) => enter_early(
                self.pool,
                None,
                Phase::ResettingUnsynced,
            ),
            (Phase::RecordingSynced, Reply::Patched) => enter_early(
                self.pool,
                self.node_pool,
                Phase::ListingLabeled,
            ),
            (Phase::ResettingUnsynced, Reply::Patched) => enter_early(
                self.pool,
                self.node_pool,
                Phase::ListingLabeled,
            ),
            (Phase::ListingLabeled, Reply::Pods(labeled)) => enter(
                self.pool,
                self.node_pool,
                labeled,
                Phase::ListingPending,
            ),
            (Phase::ListingPending, Reply::Pods(pending)) => {
                let pods = list_pods(self.pods, pending, &self.pool);
                continue_marking(self.pool, self.node_pool, pods, 0)
            },
            (Phase::PatchingPod, Reply::Patched) => continue_marking(
                self.pool,
                self.node_pool,
                self.pods,
                self.position + 1,
            ),
            (Phase::ReadingDeadline, Reply::Clock(now)) => {
                let stays = now.is_before(&self.recorded_deadline());
                enter(
                    self.pool,
                    self.node_pool,
                    self.pods,
                    if stays {
                        Phase::ReadingRemaining
                    } else {
                        Phase::Destroying
                    },
                )
            },
            (Phase::ReadingRemaining, Reply::Clock(now)) => {
                let remaining = match self.recorded_deadline().duration_since(&now) {
                    Some(remaining) => remaining,
                    None => Duration::from_secs(0),
                };
                Progress::Done(Ok(Action::Requeue(remaining)))
            },
            (Phase::ReadingSchedule, Reply::Clock(now)) => {
                let deadline = now.checked_add(self.idle_timeout());
                Progress::Pending(
                    Session {
                        pool: self.pool,
                        node_pool: self.node_pool,
                        pods: self.pods,
                        position: self.position,
                        deadline,
                        phase: Phase::RecordingSchedule,
                    },
                )
            },
            (Phase::RecordingSchedule, Reply::Patched) => Progress::Done(
                Ok(Action::Requeue(self.idle_timeout())),
            ),
            (Phase::Destroying, Reply::Destroyed(_)) => enter(
                self.pool,
                self.node_pool,
                self.pods,
                Phase::ResettingDestroyed,
            ),
            (Phase::ResettingDestroyed, Reply::Patched) => settle(),
            (Phase::RecordingCreating, Reply::Patched) => match patch_pool_settings(
                self.pool.spec.settings.clone(),
                &self.pool,
            ) {
                Ok(_) => enter(self.pool, self.node_pool, self.pods, Phase::Creating),
                Err(e) => Progress::Done(Err(OperatorError::Metadata(e))),
            },
            (Phase::Creating, Reply::Created(created)) => enter(
                self.pool,
                Some(created),
                self.pods,
                Phase::RecordingCreated,
            ),
            (Phase::RecordingCreated, Reply::Patched) => settle(),
            (Phase::CleaningUp, Reply::Destroyed(_)) => Progress::Done(Ok(Action::AwaitChange)),
            _ => Progress::Done(Err(OperatorError::UnexpectedReply)),
        }
    }
}

/// A session that has just asked for what `phase` asks for.
fn enter<E>(
    pool: Arc<ManagedNodePool>,
    node_pool: Option<NodePool>,
    pods: Vec<Pod>,
    phase: Phase,
) -> (progress: Progress<E>)
    requires
        late::<E>(pool@, node_pool.deep_view(), pods.deep_view(), phase) matches
            ProgressView::Pending(session) && session.well_formed(),
    ensures
        progress@ == late::<E>(pool@, node_pool.deep_view(), pods.deep_view(), phase),
{
    Progress::Pending(Session { pool, node_pool, pods, position: 0, deadline: None, phase })
}

/// A session that has just asked for what `phase` asks for, with no pods listed.
fn enter_early<E>(pool: Arc<ManagedNodePool>, node_pool: Option<NodePool>, phase: Phase) -> (progress:
    Progress<E>)
    requires
        early::<E>(pool@, node_pool.deep_view(), phase) matches ProgressView::Pending(session)
            && session.well_formed(),
    ensures
        progress@ == early::<E>(pool@, node_pool.deep_view(), phase),
{
    let pods: Vec<Pod> = Vec::new();
    assert(pods.deep_view() =~= Seq::empty());
    enter(pool, node_pool, pods, phase)
}

/// Ends a pass that leaves nothing to do.
fn settle<E>() -> (progress: Progress<E>)
    ensures
        progress@ == settled::<E>(),
{
    Progress::Done(Ok(Action::Requeue(Duration::from_secs(REQUEUE_SECS))))
}

fn continue_after_lookup<E>(pool: Arc<ManagedNodePool>, node_pool: Option<NodePool>) -> (progress:
    Progress<E>)
    ensures
        progress@ == after_lookup::<E>(pool@, node_pool.deep_view()),
{
    let differs = match &node_pool {
        Some(found) => needs_update(&pool.spec.settings, &found.settings),
        None => false,
    };
    if differs {
        match patch_pool_settings(pool.spec.settings.clone(), &pool) {
            Ok(_) => enter_early(pool, node_pool, Phase::Updating),
            Err(e) => Progress::Done(Err(OperatorError::Metadata(e))),
        }
    } else {
        continue_after_update(pool, node_pool)
    }
}

fn continue_after_update<E>(pool: Arc<ManagedNodePool>, node_pool: Option<NodePool>) -> (progress:
    Progress<E>)
    ensures
        progress@ == after_update::<E>(pool@, node_pool.deep_view()),
{
    let syncing = match &pool.status {
        Some(status) => status.node_pool_id.is_none() && match status.node_pool_status {
            Some(NodePoolStatus::CREATING) => true,
            _ => false,
        },
        None => false,
    };
    enter_early(
        pool,
        node_pool,
        if syncing {
            Phase::SyncingByName
        } else {
            Phase::ListingLabeled
        },
    )
}

fn continue_marking<E>(
    pool: Arc<ManagedNodePool>,
    node_pool: Option<NodePool>,
    pods: Vec<Pod>,
    start: usize,
) -> (progress: Progress<E>)
    requires
        start <= pods@.len(),
    ensures
        progress@ == mark_from::<E>(
            pool@,
            node_pool.deep_view(),
            pods.deep_view(),
            start as int,
        ),
{
    let mut i: usize = start;
    while i < pods.len() && has_pool_label(&pods[i])
        invariant
            start <= i <= pods@.len(),
            next_unlabeled(pods.deep_view(), start as int) == next_unlabeled(
                pods.deep_view(),
                i as int,
            ),
        decreases pods@.len() - i,
    {
        i += 1;
    }
    if i >= pods.len() {
        continue_after_marking(pool, node_pool, pods)
    } else {
        match patch_pod(&pods[i], &pool) {
            Ok(_) => Progress::Pending(
                Session {
                    pool,
                    node_pool,
                    pods,
                    position: i,
                    deadline: None,
                    phase: Phase::PatchingPod,
                },
            ),
            Err(e) => Progress::Done(Err(OperatorError::Metadata(e))),
        }
    }
}

fn continue_after_marking<E>(
    pool: Arc<ManagedNodePool>,
    node_pool: Option<NodePool>,
    pods: Vec<Pod>,
) -> (progress: Progress<E>)
    ensures
        progress@ == after_marking::<E>(pool@, node_pool.deep_view(), pods.deep_view()),
{
    let (recorded, scheduled) = match &pool.status {
        Some(status) => (status.node_pool_id.is_some(), status.destroy_after.is_some()),
        None => (false, false),
    };
    if node_pool.is_some() && pods.is_empty() && recorded {
        let phase = if pool.spec.idle_timeout.is_none() {
            Phase::Destroying
        } else if scheduled {
            Phase::ReadingDeadline
        } else {
            Phase::ReadingSchedule
        };
        enter(pool, node_pool, pods, phase)
    } else if node_pool.is_none() && !pods.is_empty() {
        enter(pool, node_pool, pods, Phase::RecordingCreating)
    } else {
        settle()
    }
}

/// What the finalizer of a managed pool asks for.
#[derive(Clone, Copy, Debug, PartialEq, Eq, Structural)]
pub enum Event {
    /// The pool exists: bring its node pool in line.
    Apply,
    /// The pool is being deleted: destroy its recorded node pool.
    Cleanup,
}

/// The operator of managed node pools, over a client for Kubernetes and a client
/// for the cloud.
pub struct Operator<K, P> {
    pub client: Arc<K>,
    pub cloud_provider: Arc<P>,
}

impl<K, P> Operator<K, P> {
    /// The namespace in which the pool and its finalizer are kept.
    pub fn pool_namespace(&self, pool: &ManagedNodePool) -> (namespace: Result<
        String,
        MetadataError,
    >)
        ensures
            match pool@.metadata.namespace {
                Some(text) => namespace matches Ok(n) && n@ == text,
                None => namespace == Err::<String, _>(MetadataError::MissingPoolNamespace),
            },
    {
        match &pool.metadata.namespace {
            Some(namespace) => Ok(namespace.clone()),
            None => Err(MetadataError::MissingPoolNamespace),
        }
    }

    /// Starts the pass that the event asks for. A pool without a namespace gets none.
    pub fn reconcile_or_cleanup<E>(&self, event: Event, pool: Arc<ManagedNodePool>) -> (progress:
        Progress<E>)
        ensures
            progress@ == (if pool@.metadata.namespace is None {
                ProgressView::Done(
                    Err(OperatorError::Metadata(MetadataError::MissingPoolNamespace)),
                )
            } else {
                match event {
                    Event::Apply => reconcile_start::<E>(pool@),
                    Event::Cleanup => cleanup_start::<E>(pool@),
                }
            }),
    {
        if let Err(e) = self.pool_namespace(&pool) {
            return Progress::Done(Err(OperatorError::Metadata(e)));
        }
        match event {
            Event::Apply => self.reconcile(pool),
            Event::Cleanup => self.cleanup(pool),
        }
    }

    /// Starts a pass over a pool that exists.
    pub fn reconcile<E>(&self, pool: Arc<ManagedNodePool>) -> (progress: Progress<E>)
        ensures
            progress@ == reconcile_start::<E>(pool@),
    {
        let recorded = match &pool.status {
            Some(status) => status.node_pool_id.is_some(),
            None => false,
        };
        if recorded {
            enter_early(pool, None, Phase::LookingUp)
        } else {
            continue_after_lookup(pool, None)
        }
    }

    /// Starts a pass over a pool that is being deleted.
    pub fn cleanup<E>(&self, pool: Arc<ManagedNodePool>) -> (progress: Progress<E>)
        ensures
            progress@ == cleanup_start::<E>(pool@),
    {
        let recorded = match &pool.status {
            Some(status) => status.node_pool_id.is_some(),
            None => false,
        };
        if recorded {
            enter_early(pool, None, Phase::CleaningUp)
        } else {
            Progress::Done(Ok(Action::AwaitChange))
        }
    }

    /// What happens after a pass that failed.
    pub fn error_policy(&self) -> (action: Action)
        ensures
            action@ == ActionView::Requeue((ERROR_REQUEUE_SECS * NANOS_PER_SEC) as nat),
    {
        Action::Requeue(Duration::from_secs(ERROR_REQUEUE_SECS))
    }
}

/// The request to write this status.
fn patch_status(status: ManagedNodePoolStatus) -> (request: Request)
    ensures
        request@ == status_patch(status@),
{
    Request::PatchPoolStatus { status, manager: LABEL_MANAGED_NODE_POOL.to_owned() }
}

} // verus!
