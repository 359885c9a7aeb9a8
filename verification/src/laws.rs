//! What holds of the operator as a whole: of its marks, of the settings it
//! exchanges with the cloud, and of every pass over a managed pool.

use crate::model::{
    ManagedNodePoolStatusView, ManagedNodePoolView, NodePoolSettingsView, NodePoolView, PodView,
};
use crate::operator::{
    ActionView, OperatorError, Phase, ProgressView, ReplyView, RequestView, SessionView,
};
use crate::pool::LABEL_MANAGED_NODE_POOL;
use vstd::prelude::*;

verus! {

/// The full name of a pool leads back to the pool, if the pool's name holds no
/// dot.
pub proof fn law_full_name_leads_back(pool: ManagedNodePoolView)
    requires
        crate::pool::pool_full_name(pool) is Ok,
        !pool.metadata.name->0.contains('.'),
    ensures
        crate::pods::named_pool(crate::pool::pool_full_name(pool)->Ok_0) matches Some(obj_ref)
            && crate::pods::refers_to(obj_ref, pool),
{
    let name = pool.metadata.name->0;
    let namespace = pool.metadata.namespace->0;
    let full_name = name + seq!['.'] + namespace;
    full_name.index_of_first_ensures('.');
    assert(full_name[name.len() as int] == '.');
    assert(full_name.contains('.'));
    let dot = full_name.index_of_first('.')->0;
    if dot < name.len() {
        assert(name[dot] == '.');
        assert(name.contains('.'));
    }
    assert(full_name.subrange(0, dot) =~= name);
    assert(full_name.subrange(dot + 1, full_name.len() as int) =~= namespace);
}

/// Pools whose names hold no dot share a full name only if they share name and
/// namespace.
pub proof fn law_full_names_differ(a: ManagedNodePoolView, b: ManagedNodePoolView)
    requires
        crate::pool::pool_full_name(a) is Ok,
        crate::pool::pool_full_name(a) == crate::pool::pool_full_name(b),
        !a.metadata.name->0.contains('.'),
        !b.metadata.name->0.contains('.'),
    ensures
        a.metadata.name == b.metadata.name,
        a.metadata.namespace == b.metadata.namespace,
{
    law_full_name_leads_back(a);
    law_full_name_leads_back(b);
}

/// A pod whose label or, without one, whose node selector holds the full name of
/// a pool asks for that pool, if the pool's name holds no dot.
pub proof fn law_full_name_assigns_pod(pod: PodView, pool: ManagedNodePoolView)
    requires
        crate::pool::pool_full_name(pool) is Ok,
        !pool.metadata.name->0.contains('.'),
        crate::pods::requested_pool(pod) == Some(crate::pool::pool_full_name(pool)->Ok_0),
    ensures
        crate::pods::asks_for(pod, pool),
{
    law_full_name_leads_back(pool);
}

/// All that a pending pod, which is one that has not finished, needs in order to keep
/// a pool up is a node selector that holds the pool's full name, if the pool's name
/// holds no dot.
pub proof fn law_node_selector_is_enough(
    pool: ManagedNodePoolView,
    labeled: Seq<PodView>,
    pending: Seq<PodView>,
    i: int,
)
    requires
        crate::pool::pool_full_name(pool) is Ok,
        !pool.metadata.name->0.contains('.'),
        0 <= i < pending.len(),
        !crate::pods::is_finished(pending[i]),
        !crate::pods::is_labeled(pending[i]),
        pending[i].spec matches Some(pod_spec) && pod_spec.node_selector matches Some(selector)
            && selector.contains_key(LABEL_MANAGED_NODE_POOL@) && selector[LABEL_MANAGED_NODE_POOL@]
            == crate::pool::pool_full_name(pool)->Ok_0,
    ensures
        crate::pods::listed_pods(labeled, pending, pool).contains(pending[i]),
{
    law_full_name_assigns_pod(pending[i], pool);
    let keeping = |pod: PodView| crate::pods::keeps_up(pod, pool);
    pending.lemma_filter_contains(keeping, i);
    let first = labeled.filter(|pod: PodView| crate::pods::labeled_keeps_up(pod, pool));
    let kept = pending.filter(keeping);
    let j = choose|j: int| 0 <= j < kept.len() && kept[j] == pending[i];
    assert((first + kept)[first.len() + j] == pending[i]);
}

/// All that a labeled pod that has not finished needs in order to keep a pool up is that
/// its label holds the pool's full name, whatever the pool's name holds.
pub proof fn law_label_is_enough(
    pool: ManagedNodePoolView,
    labeled: Seq<PodView>,
    pending: Seq<PodView>,
    i: int,
)
    requires
        crate::pool::pool_full_name(pool) is Ok,
        0 <= i < labeled.len(),
        !crate::pods::is_finished(labeled[i]),
        labeled[i].metadata.labels matches Some(labels) && labels.contains_key(
            LABEL_MANAGED_NODE_POOL@,
        ) && labels[LABEL_MANAGED_NODE_POOL@] == crate::pool::pool_full_name(pool)->Ok_0,
    ensures
        crate::pods::listed_pods(labeled, pending, pool).contains(labeled[i]),
{
    let keeping = |pod: PodView| crate::pods::labeled_keeps_up(pod, pool);
    labeled.lemma_filter_contains(keeping, i);
    let kept = labeled.filter(keeping);
    let second = pending.filter(|pod: PodView| crate::pods::keeps_up(pod, pool));
    let j = choose|j: int| 0 <= j < kept.len() && kept[j] == labeled[i];
    assert((kept + second)[j] == labeled[i]);
}

/// A pod patch carries the label, so that a marked pod is not marked again; and a marked
/// pod keeps its pool up.
pub proof fn law_marked_pod_keeps_pool_up(pod: PodView, pool: ManagedNodePoolView)
    requires
        crate::pods::pod_patch(pod, pool) is Ok,
    ensures
        crate::pods::is_labeled(crate::pods::pod_patch(pod, pool)->Ok_0),
        crate::pods::labeled_keeps_up(crate::pods::pod_patch(pod, pool)->Ok_0, pool),
{
}

/// Marking does not reassign a pod: the patch of a pod that keeps the pool up asks for
/// a pool by the same full name as the pod.
pub proof fn law_marking_keeps_request(pod: PodView, pool: ManagedNodePoolView)
    requires
        crate::pods::labeled_keeps_up(pod, pool) || crate::pods::keeps_up(pod, pool),
        crate::pods::pod_patch(pod, pool) is Ok,
    ensures
        crate::pods::requested_pool(crate::pods::pod_patch(pod, pool)->Ok_0)
            == crate::pods::requested_pool(pod),
{
    let asked = crate::pods::requested_pool(pod)->0;
    asked.index_of_first_ensures('.');
    assert(asked =~= crate::pool::pool_full_name(pool)->Ok_0);
}

/// What a marked pod tolerates is the taint that its pool is created and updated
/// with, and its label is that of the pool's nodes.
pub proof fn law_marked_pod_fits_pool(
    pod: PodView,
    pool: ManagedNodePoolView,
    settings: NodePoolSettingsView,
)
    ensures
        crate::pods::pod_patch(pod, pool) is Ok <==> crate::pool::patched_settings(
            settings,
            pool,
        ) is Ok,
        crate::pods::pod_patch(pod, pool) is Ok ==> {
            let patch = crate::pods::pod_patch(pod, pool)->Ok_0;
            let patched = crate::pool::patched_settings(settings, pool)->Ok_0;
            let toleration = patch.spec->0.tolerations->0[0];
            let taint = patched.taints->0.last();
            &&& toleration.key == Some(taint.key)
            &&& toleration.value == Some(taint.value)
            &&& toleration.effect == Some(taint.effect)
            &&& patched.labels->0[LABEL_MANAGED_NODE_POOL@]
                == patch.metadata.labels->0[LABEL_MANAGED_NODE_POOL@]
        },
{
}

/// Marking settings keeps what the user asked for: the taints come first, each
/// label but the pool's own keeps its value, and the rest is as it was.
pub proof fn law_marks_keep_settings(settings: NodePoolSettingsView, pool: ManagedNodePoolView)
    requires
        crate::pool::patched_settings(settings, pool) is Ok,
    ensures
        ({
            let patched = crate::pool::patched_settings(settings, pool)->Ok_0;
            &&& patched.name == settings.name
            &&& patched.size == settings.size
            &&& patched.count == settings.count
            &&& patched.min_count == settings.min_count
            &&& patched.max_count == settings.max_count
            &&& patched.tags == settings.tags
            &&& settings.taints matches Some(taints) ==> patched.taints->0.drop_last() == taints
            &&& settings.taints is None ==> patched.taints->0.len() == 1
            &&& settings.labels matches Some(labels) ==> patched.labels->0.remove(
                LABEL_MANAGED_NODE_POOL@,
            ) == labels.remove(LABEL_MANAGED_NODE_POOL@)
            &&& settings.labels is None ==> patched.labels->0.dom() == set![
                LABEL_MANAGED_NODE_POOL@,
            ]
        }),
{
    let patched = crate::pool::patched_settings(settings, pool)->Ok_0;
    if let Some(taints) = settings.taints {
        assert(patched.taints->0.drop_last() =~= taints);
    }
    if let Some(labels) = settings.labels {
        assert(patched.labels->0.remove(LABEL_MANAGED_NODE_POOL@) =~= labels.remove(
            LABEL_MANAGED_NODE_POOL@,
        ));
    } else {
        assert(patched.labels->0.dom() =~= set![LABEL_MANAGED_NODE_POOL@]);
    }
}

/// Settings come back from DigitalOcean as they were sent.
pub proof fn law_settings_survive_digital_ocean(settings: NodePoolSettingsView)
    ensures
        crate::digital_ocean::plain_settings(crate::digital_ocean::do_settings(settings))
            == settings,
{
}

/// A pool that DigitalOcean reports as it was last created or updated needs no
/// update.
pub proof fn law_applied_settings_need_no_update(
    settings: NodePoolSettingsView,
    pool: ManagedNodePoolView,
)
    requires
        crate::pool::patched_settings(settings, pool) is Ok,
    ensures
        !crate::pool::sizes_differ(
            settings,
            crate::digital_ocean::plain_settings(
                crate::digital_ocean::do_settings(
                    crate::pool::patched_settings(settings, pool)->Ok_0,
                ),
            ),
        ),
{
    law_settings_survive_digital_ocean(crate::pool::patched_settings(settings, pool)->Ok_0);
}

/// Tags, labels and taints that the cloud sets on its own never cause an update.
pub proof fn law_cloud_marks_cause_no_update(
    settings: NodePoolSettingsView,
    current: NodePoolSettingsView,
    tags: Option<Seq<Seq<char>>>,
    labels: Option<Map<Seq<char>, Seq<char>>>,
    taints: Option<Seq<crate::model::NodePoolTaintView>>,
)
    ensures
        crate::pool::sizes_differ(
            settings,
            NodePoolSettingsView { tags, labels, taints, ..current },
        ) == crate::pool::sizes_differ(settings, current),
{
}

/// Where a pass stands after these replies, one to each of its requests.
pub open spec fn run<E>(progress: ProgressView<E>, replies: Seq<ReplyView<E>>) -> ProgressView<E>
    decreases replies.len(),
{
    if replies.len() == 0 {
        progress
    } else {
        match run(progress, replies.drop_last()) {
            ProgressView::Pending(session) => session.next(replies.last()),
            done => done,
        }
    }
}

/// The number of pods that the replies list.
pub open spec fn pods_in<E>(replies: Seq<ReplyView<E>>) -> nat
    decreases replies.len(),
{
    if replies.len() == 0 {
        0
    } else {
        pods_in(replies.drop_last()) + (match replies.last() {
            ReplyView::Pods(pods) => pods.len(),
            _ => 0,
        })
    }
}

/// Whether the replies from `i` on list the labeled and the pending pods, and
/// these are the pods that keep the pool up.
pub open spec fn lists_at<E>(
    replies: Seq<ReplyView<E>>,
    i: int,
    pool: ManagedNodePoolView,
    pods: Seq<PodView>,
) -> bool {
    &&& 0 <= i < replies.len() - 1
    &&& replies[i] matches ReplyView::Pods(labeled)
    &&& replies[i + 1] matches ReplyView::Pods(pending)
    &&& pods == crate::pods::listed_pods(labeled, pending, pool)
}

/// Whether the replies say that these are the pods that keep the pool up.
pub open spec fn listed<E>(
    replies: Seq<ReplyView<E>>,
    pool: ManagedNodePoolView,
    pods: Seq<PodView>,
) -> bool {
    exists|i: int| #[trigger] lists_at(replies, i, pool, pods)
}

/// Whether one of the replies brings the node pool that was looked up.
pub open spec fn found_pool<E>(replies: Seq<ReplyView<E>>) -> bool {
    exists|i: int|
        0 <= i < replies.len() && (#[trigger] replies[i] matches ReplyView::Found(Some(_)))
}

/// The order of the phases: a bound on the replies that a pass has had, apart
/// from those to pod patches.
spec fn stage(phase: Phase) -> int {
    match phase {
        Phase::LookingUp | Phase::CleaningUp => 0,
        Phase::ResettingLost | Phase::Updating => 1,
        Phase::SyncingByName => 2,
        Phase::RecordingSynced | Phase::ResettingUnsynced => 3,
        Phase::ListingLabeled => 4,
        Phase::ListingPending => 5,
        Phase::PatchingPod => 6,
        Phase::ReadingDeadline | Phase::ReadingSchedule | Phase::RecordingCreating => 7,
        Phase::ReadingRemaining | Phase::RecordingSchedule | Phase::Destroying | Phase::Creating =>
            8,
        Phase::ResettingDestroyed | Phase::RecordingCreated => 9,
    }
}

/// What the replies so far say about a session of a pass over an existing pool.
spec fn told_by<E>(
    session: SessionView,
    replies: Seq<ReplyView<E>>,
    pool: ManagedNodePoolView,
) -> bool {
    &&& session.pool == pool
    &&& session.well_formed()
    &&& session.phase != Phase::CleaningUp
    &&& replies.len() <= stage(session.phase) + (if session.phase == Phase::PatchingPod {
        session.position
    } else if stage(session.phase) > 6 {
        session.pods.len() as int
    } else {
        0
    })
    &&& session.phase == Phase::LookingUp || session.phase == Phase::SyncingByName
        ==> replies.len() == 0 && session.node_pool is None
    &&& session.phase == Phase::Updating ==> crate::operator::recorded_id(pool) is Some
        && replies.len() > 0 && replies.last() == ReplyView::<E>::Found(session.node_pool)
        && crate::pool::sizes_differ(pool.spec.settings, session.node_pool->0.settings)
    &&& session.phase != Phase::RecordingCreated ==> (session.node_pool is Some <==> found_pool(
        replies,
    ))
    &&& session.phase == Phase::ListingPending ==> replies.len() > 0 && replies.last()
        == ReplyView::<E>::Pods(session.pods)
    &&& stage(session.phase) >= 6 ==> listed(replies, pool, session.pods)
    &&& session.phase == Phase::RecordingCreated ==> !found_pool(replies)
    &&& session.phase == Phase::Destroying && pool.spec.idle_timeout is Some ==> replies.len() > 0
        && (replies.last() matches ReplyView::Clock(now)
        && crate::operator::recorded_deadline(pool)->0 <= now)
    &&& session.phase == Phase::ReadingRemaining ==> replies.len() > 0 && (
    replies.last() matches ReplyView::Clock(now) && now < crate::operator::recorded_deadline(
        pool,
    )->0)
}

proof fn lemma_found_after<E>(replies: Seq<ReplyView<E>>)
    requires
        replies.len() > 0,
    ensures
        found_pool(replies) == (found_pool(replies.drop_last()) || (
        replies.last() matches ReplyView::Found(Some(_)))),
{
    let before = replies.drop_last();
    if found_pool(before) {
        let i = choose|i: int|
            0 <= i < before.len() && (#[trigger] before[i] matches ReplyView::Found(Some(_)));
        assert(replies[i] == before[i]);
    }
    if found_pool(replies) {
        let i = choose|i: int|
            0 <= i < replies.len() && (#[trigger] replies[i] matches ReplyView::Found(Some(_)));
        if i < before.len() {
            assert(before[i] == replies[i]);
        }
    }
    assert(replies[replies.len() - 1] == replies.last());
}

proof fn lemma_listed_after<E>(
    replies: Seq<ReplyView<E>>,
    pool: ManagedNodePoolView,
    pods: Seq<PodView>,
)
    requires
        replies.len() > 0,
        listed(replies.drop_last(), pool, pods),
    ensures
        listed(replies, pool, pods),
{
    let before = replies.drop_last();
    let i = choose|i: int| #[trigger] lists_at(before, i, pool, pods);
    assert(before[i] == replies[i]);
    assert(before[i + 1] == replies[i + 1]);
    assert(lists_at(replies, i, pool, pods));
}

/// The replies of a pass over an existing pool tell its session at every point.
proof fn lemma_told<E>(pool: ManagedNodePoolView, replies: Seq<ReplyView<E>>)
    ensures
        run(crate::operator::reconcile_start(pool), replies) matches ProgressView::Pending(
            session,
        ) ==> told_by(session, replies, pool),
    decreases replies.len(),
{
    if replies.len() == 0 {
        assert(!found_pool(replies));
    } else {
        let before = replies.drop_last();
        lemma_told(pool, before);
        if let ProgressView::Pending(session) = run(
            crate::operator::reconcile_start(pool),
            before,
        ) {
            let reply = replies.last();
            crate::operator::lemma_next_well_formed(session, reply);
            lemma_found_after(replies);
            if stage(session.phase) >= 6 {
                lemma_listed_after(replies, pool, session.pods);
            }
            if session.phase == Phase::PatchingPod {
                crate::operator::lemma_next_unlabeled(session.pods, session.position + 1);
            }
            if session.phase == Phase::ListingPending {
                if let ReplyView::Pods(pending) = reply {
                    let pods = crate::pods::listed_pods(session.pods, pending, pool);
                    crate::operator::lemma_next_unlabeled(pods, 0);
                    assert(replies[replies.len() - 2] == before.last());
                    assert(lists_at(replies, replies.len() - 2, pool, pods));
                }
            }
        }
    }
}

/// A session of a pass over an existing pool is one of that pool, and consistent.
pub(crate) proof fn lemma_reached<E>(pool: ManagedNodePoolView, replies: Seq<ReplyView<E>>)
    ensures
        run(crate::operator::reconcile_start(pool), replies) matches ProgressView::Pending(
            session,
        ) ==> session.pool == pool && session.well_formed() && session.phase != Phase::CleaningUp,
{
    lemma_told(pool, replies);
}

/// A node pool is created only where no node pool was found and there are pods that
/// keep the pool up, and with the settings that the user asked for, marked as the
/// pool's.
pub proof fn law_created_on_demand_only<E>(pool: ManagedNodePoolView, replies: Seq<ReplyView<E>>)
    requires
        run(crate::operator::reconcile_start(pool), replies) matches ProgressView::Pending(session)
            && session.request() is CreatePool,
    ensures
        run(crate::operator::reconcile_start(pool), replies) matches ProgressView::Pending(session)
            && {
            &&& crate::pool::patched_settings(pool.spec.settings, pool) matches Ok(settings)
                && session.request() == (RequestView::CreatePool { settings })
            &&& !found_pool(replies)
            &&& listed(replies, pool, session.pods)
            &&& session.pods.len() > 0
            &&& forall|k: int|
                0 <= k < session.pods.len() ==> crate::pods::labeled_keeps_up(
                    #[trigger] session.pods[k],
                    pool,
                )
        },
{
    lemma_told(pool, replies);
    if let ProgressView::Pending(session) = run(crate::operator::reconcile_start(pool), replies) {
        let i = choose|i: int| #[trigger] lists_at(replies, i, pool, session.pods);
        lemma_listed_keep_up(replies[i]->Pods_0, replies[i + 1]->Pods_0, pool);
    }
}

pub(crate) proof fn lemma_listed_keep_up(
    labeled: Seq<PodView>,
    pending: Seq<PodView>,
    pool: ManagedNodePoolView,
)
    ensures
        forall|k: int|
            0 <= k < crate::pods::listed_pods(labeled, pending, pool).len()
                ==> crate::pods::labeled_keeps_up(
                #[trigger] crate::pods::listed_pods(labeled, pending, pool)[k],
                pool,
            ),
{
    let labeled_keeping = |pod: PodView| crate::pods::labeled_keeps_up(pod, pool);
    let keeping = |pod: PodView| crate::pods::keeps_up(pod, pool);
    let first = labeled.filter(labeled_keeping);
    let pods = crate::pods::listed_pods(labeled, pending, pool);
    assert forall|k: int| 0 <= k < pods.len() implies crate::pods::labeled_keeps_up(
        #[trigger] pods[k],
        pool,
    ) by {
        if k < first.len() {
            labeled.lemma_filter_pred(labeled_keeping, k);
        } else {
            pending.lemma_filter_pred(keeping, k - first.len());
        }
    }
}

/// A node pool is destroyed only where it is the recorded one, was found, and no pod
/// keeps it up; and only at once, where there is no idle
/// timeout, or at a time that is not before the recorded end of it.
pub proof fn law_destroyed_when_idle_only<E>(pool: ManagedNodePoolView, replies: Seq<ReplyView<E>>)
    requires
        run(crate::operator::reconcile_start(pool), replies) matches ProgressView::Pending(session)
            && session.request() is DestroyPoolById,
    ensures
        run(crate::operator::reconcile_start(pool), replies) matches ProgressView::Pending(session)
            && {
            &&& crate::operator::recorded_id(pool) matches Some(id) && session.request() == (
            RequestView::DestroyPoolById { id })
            &&& found_pool(replies)
            &&& listed(replies, pool, session.pods)
            &&& session.pods.len() == 0
            &&& pool.spec.idle_timeout is None || (crate::operator::recorded_deadline(
                pool,
            ) matches Some(deadline) && replies.last() matches ReplyView::Clock(now) && deadline
                <= now)
        },
{
    lemma_told(pool, replies);
}

/// A node pool is updated only where it was looked up by its recorded id and has
/// other sizes than the user asks for, and to the settings that the user asks
/// for, marked as the pool's.
pub proof fn law_updated_on_change_only<E>(pool: ManagedNodePoolView, replies: Seq<ReplyView<E>>)
    requires
        run(crate::operator::reconcile_start(pool), replies) matches ProgressView::Pending(session)
            && session.request() is UpdatePoolById,
    ensures
        run(crate::operator::reconcile_start(pool), replies) matches ProgressView::Pending(session)
            && {
            &&& crate::operator::recorded_id(pool) is Some
            &&& replies.len() > 0
            &&& replies.last() matches ReplyView::Found(Some(found))
            &&& crate::pool::sizes_differ(pool.spec.settings, found.settings)
            &&& crate::pool::patched_settings(pool.spec.settings, pool) matches Ok(settings)
            &&& session.request() == (RequestView::UpdatePoolById { id: found.id, settings })
        },
{
    lemma_told(pool, replies);
}

/// A call that fails ends the pass with its error.
pub proof fn law_failure_ends_pass<E>(
    start: ProgressView<E>,
    replies: Seq<ReplyView<E>>,
    error: E,
)
    requires
        run(start, replies) is Pending,
    ensures
        run(start, replies.push(ReplyView::Failed(error))) == ProgressView::<E>::Done(
            Err(OperatorError::Call(error)),
        ),
{
    assert(replies.push(ReplyView::Failed(error)).drop_last() =~= replies);
}

/// A pass that has ended stays ended.
pub proof fn law_pass_ends_once<E>(
    start: ProgressView<E>,
    replies: Seq<ReplyView<E>>,
    more: Seq<ReplyView<E>>,
)
    requires
        run(start, replies) is Done,
    ensures
        run(start, replies + more) == run(start, replies),
{
    lemma_run_on(start, replies, more);
    lemma_done_stays(run(start, replies), more);
}

proof fn lemma_done_stays<E>(done: ProgressView<E>, more: Seq<ReplyView<E>>)
    requires
        done is Done,
    ensures
        run(done, more) == done,
    decreases more.len(),
{
    if more.len() > 0 {
        lemma_done_stays(done, more.drop_last());
    }
}

/// A pass goes on from where its first replies have brought it.
pub(crate) proof fn lemma_run_on<E>(
    start: ProgressView<E>,
    replies: Seq<ReplyView<E>>,
    more: Seq<ReplyView<E>>,
)
    ensures
        run(start, replies + more) == run(run(start, replies), more),
    decreases more.len(),
{
    if more.len() == 0 {
        assert(replies + more =~= replies);
    } else {
        lemma_run_on(start, replies, more.drop_last());
        assert((replies + more).drop_last() =~= replies + more.drop_last());
    }
}

pub(crate) proof fn lemma_run_one<E>(session: SessionView, reply: ReplyView<E>)
    ensures
        run(ProgressView::Pending(session), seq![reply]) == session.next(reply),
{
    assert(seq![reply].drop_last() =~= Seq::empty());
    assert(run(ProgressView::<E>::Pending(session), Seq::empty()) == ProgressView::<E>::Pending(
        session,
    ));
}

proof fn lemma_pods_listed<E>(replies: Seq<ReplyView<E>>, i: int)
    requires
        0 <= i < replies.len() - 1,
        replies[i] is Pods,
        replies[i + 1] is Pods,
    ensures
        replies[i]->Pods_0.len() + replies[i + 1]->Pods_0.len() <= pods_in(replies),
    decreases replies.len(),
{
    let before = replies.drop_last();
    if i + 1 < before.len() {
        lemma_pods_listed(before, i);
    } else {
        lemma_pods_of(before, i);
    }
}

proof fn lemma_pods_of<E>(replies: Seq<ReplyView<E>>, i: int)
    requires
        0 <= i < replies.len(),
        replies[i] is Pods,
    ensures
        replies[i]->Pods_0.len() <= pods_in(replies),
    decreases replies.len(),
{
    if i < replies.len() - 1 {
        lemma_pods_of(replies.drop_last(), i);
    }
}

/// Every pass ends: one that still waits for a reply has had at most nine, and at
/// most one more for each pod that was listed.
pub proof fn law_pass_is_bounded<E>(pool: ManagedNodePoolView, replies: Seq<ReplyView<E>>)
    requires
        run(crate::operator::reconcile_start(pool), replies) is Pending,
    ensures
        replies.len() <= 9 + pods_in(replies),
{
    lemma_told(pool, replies);
    if let ProgressView::Pending(session) = run(crate::operator::reconcile_start(pool), replies) {
        if stage(session.phase) >= 6 {
            let i = choose|i: int| #[trigger] lists_at(replies, i, pool, session.pods);
            lemma_pods_listed(replies, i);
            replies[i]->Pods_0.lemma_filter_len(
                |pod: PodView| crate::pods::labeled_keeps_up(pod, pool),
            );
            replies[i + 1]->Pods_0.lemma_filter_len(
                |pod: PodView| crate::pods::keeps_up(pod, pool),
            );
        }
    }
}

/// A pass over an existing pool that succeeds always starts another one in time.
pub proof fn law_pass_requeues<E>(pool: ManagedNodePoolView, replies: Seq<ReplyView<E>>)
    ensures
        run(crate::operator::reconcile_start::<E>(pool), replies) matches ProgressView::Done(
            Ok(action),
        ) ==> action is Requeue,
    decreases replies.len(),
{
    if replies.len() > 0 {
        law_pass_requeues(pool, replies.drop_last());
        lemma_told(pool, replies.drop_last());
    }
}

/// Before a node pool is created the status records that it is about to be, and
/// once it is created the status records its id.
pub proof fn law_creation_is_recorded<E>(
    pool: ManagedNodePoolView,
    replies: Seq<ReplyView<E>>,
    created: NodePoolView,
)
    requires
        run(crate::operator::reconcile_start(pool), replies) matches ProgressView::Pending(session)
            && session.request() is CreatePool,
    ensures
        replies.len() > 0,
        replies.last() is Patched,
        run(crate::operator::reconcile_start(pool), replies.drop_last()) matches
            ProgressView::Pending(session) && session.request() == crate::operator::status_patch(
            crate::operator::creating_status(),
        ),
        run(
            crate::operator::reconcile_start(pool),
            replies.push(ReplyView::Created(created)),
        ) matches ProgressView::Pending(session) && session.request()
            == crate::operator::status_patch(crate::operator::created_status(created.id)),
{
    lemma_told(pool, replies);
    lemma_told(pool, replies.drop_last());
    assert(replies.push(ReplyView::Created(created)).drop_last() =~= replies);
}

/// Where the status says that a node pool was about to be created, the next pass
/// first looks for it by name. If it exists it is recorded, else the status is
/// blanked; in either case the pass goes on to list the pods.
pub proof fn law_interrupted_creation_is_resumed<E>(
    pool: ManagedNodePoolView,
    found: Option<NodePoolView>,
)
    requires
        pool.status == Some(crate::operator::creating_status()),
    ensures
        crate::operator::reconcile_start::<E>(pool) matches ProgressView::Pending(session) && {
            &&& session.request() == (RequestView::FindPoolByName {
                name: pool.spec.settings.name,
            })
            &&& session.next(ReplyView::<E>::Found(found)) matches ProgressView::Pending(next)
            &&& next.request() == crate::operator::status_patch(
                match found {
                    Some(node_pool) => crate::operator::created_status(node_pool.id),
                    None => ManagedNodePoolStatusView::blank(),
                },
            )
            &&& next.next(ReplyView::<E>::Patched) == crate::operator::early::<E>(
                pool,
                found,
                Phase::ListingLabeled,
            )
        },
{
}

/// A recorded node pool that is gone is forgotten: the status is blanked, and the
/// pass goes on as if none had been recorded.
pub proof fn law_lost_pool_is_forgotten<E>(pool: ManagedNodePoolView)
    requires
        crate::operator::recorded_id(pool) is Some,
    ensures
        crate::operator::reconcile_start::<E>(pool) matches ProgressView::Pending(session) && {
            &&& session.request() == (RequestView::FindPoolById {
                id: crate::operator::recorded_id(pool)->0,
            })
            &&& session.next(ReplyView::<E>::Found(None)) matches ProgressView::Pending(next)
            &&& next.request() == crate::operator::status_patch(
                ManagedNodePoolStatusView::blank(),
            )
            &&& next.next(ReplyView::<E>::Patched) == crate::operator::early::<E>(
                pool,
                None,
                Phase::ListingLabeled,
            )
        },
{
}

/// The number of pods from `start` up to `end` that lack the label.
pub open spec fn unlabeled_between(pods: Seq<PodView>, start: int, end: int) -> nat
    decreases end - start,
{
    if start >= end {
        0
    } else {
        (if crate::pods::is_labeled(pods[start]) {
            0nat
        } else {
            1nat
        }) + unlabeled_between(pods, start + 1, end)
    }
}

/// This many replies that say that a patch was written.
pub open spec fn patched_times<E>(n: nat) -> Seq<ReplyView<E>> {
    Seq::new(n, |i: int| ReplyView::Patched)
}

/// Marking goes through the pods in order: once as many patches are written as
/// there are pods without the label before the pod with index `i`, marking stands
/// as if it started at that pod. So each pod without the label is marked exactly
/// once, and after the last one marking is over. Each of them must be one that the
/// pool can mark.
pub proof fn law_each_unlabeled_pod_is_marked<E>(
    pool: ManagedNodePoolView,
    node_pool: Option<NodePoolView>,
    pods: Seq<PodView>,
    start: int,
    i: int,
)
    requires
        0 <= start <= i <= pods.len(),
        forall|k: int|
            start <= k < pods.len() && !crate::pods::is_labeled(#[trigger] pods[k])
                ==> crate::pods::pod_patch(pods[k], pool) is Ok,
    ensures
        ({
            let reached = run(
                crate::operator::mark_from::<E>(pool, node_pool, pods, start),
                patched_times(unlabeled_between(pods, start, i)),
            );
            &&& reached == crate::operator::mark_from::<E>(pool, node_pool, pods, i)
            &&& i < pods.len() && !crate::pods::is_labeled(pods[i]) ==> (
            reached matches ProgressView::Pending(session) && session.request() == (
            RequestView::PatchPod {
                pod: crate::pods::pod_patch(pods[i], pool)->Ok_0,
                manager: LABEL_MANAGED_NODE_POOL@,
            }))
            &&& i == pods.len() ==> reached == crate::operator::after_marking::<E>(
                pool,
                node_pool,
                pods,
            )
        }),
    decreases i - start,
{
    let from = crate::operator::mark_from::<E>(pool, node_pool, pods, start);
    if start < i {
        law_each_unlabeled_pod_is_marked::<E>(pool, node_pool, pods, start + 1, i);
        if !crate::pods::is_labeled(pods[start]) {
            let rest = unlabeled_between(pods, start + 1, i);
            let session = from->Pending_0;
            assert(patched_times::<E>(rest + 1) =~= seq![ReplyView::Patched] + patched_times::<E>(
                rest,
            ));
            lemma_run_on(from, seq![ReplyView::Patched], patched_times(rest));
            lemma_run_one::<E>(session, ReplyView::Patched);
        }
    } else {
        assert(patched_times::<E>(0) =~= Seq::empty());
    }
}

/// The first replies of a pass that finds no node pool: where the status speaks of
/// one it is looked up in vain, and the status is blanked.
pub open spec fn absent_replies<E>(pool: ManagedNodePoolView) -> Seq<ReplyView<E>> {
    if crate::operator::recorded_id(pool) is Some || crate::operator::awaits_sync(pool) {
        seq![ReplyView::Found(None), ReplyView::Patched]
    } else {
        Seq::empty()
    }
}

/// The first replies of a pass that finds the node pool that the status speaks of:
/// one that was being created is recorded, and one that is recorded is updated
/// where its sizes differ from those that the user asks for.
pub open spec fn present_replies<E>(
    pool: ManagedNodePoolView,
    found: NodePoolView,
    updated: NodePoolView,
) -> Seq<ReplyView<E>> {
    if crate::operator::awaits_sync(pool) {
        seq![ReplyView::Found(Some(found)), ReplyView::Patched]
    } else if crate::pool::sizes_differ(pool.spec.settings, found.settings) {
        seq![ReplyView::Found(Some(found)), ReplyView::Updated(updated)]
    } else {
        seq![ReplyView::Found(Some(found))]
    }
}

/// The replies that list the pods and say that each one without the label was
/// marked.
pub open spec fn pod_replies<E>(
    pool: ManagedNodePoolView,
    labeled: Seq<PodView>,
    pending: Seq<PodView>,
) -> Seq<ReplyView<E>> {
    let pods = crate::pods::listed_pods(labeled, pending, pool);
    seq![ReplyView::Pods(labeled), ReplyView::Pods(pending)] + patched_times::<E>(
        unlabeled_between(pods, 0, pods.len() as int),
    )
}

/// Whether the pool can mark each of these pods that lacks the label.
pub open spec fn can_mark(pool: ManagedNodePoolView, pods: Seq<PodView>) -> bool {
    forall|k: int|
        0 <= k < pods.len() && !crate::pods::is_labeled(#[trigger] pods[k])
            ==> crate::pods::pod_patch(pods[k], pool) is Ok
}

/// Whether the pool can be updated as far as that is called for.
pub open spec fn can_update(pool: ManagedNodePoolView, found: NodePoolView) -> bool {
    crate::pool::sizes_differ(pool.spec.settings, found.settings)
        ==> crate::pool::patched_settings(pool.spec.settings, pool) is Ok
}

pub(crate) proof fn lemma_run_two<E>(session: SessionView, first: ReplyView<E>, second: ReplyView<E>)
    requires
        session.next(first) is Pending,
    ensures
        run(ProgressView::Pending(session), seq![first, second]) == session.next(
            first,
        )->Pending_0.next(second),
{
    assert(seq![first, second].drop_last() =~= seq![first]);
    lemma_run_one(session, first);
}

proof fn lemma_absent<E>(pool: ManagedNodePoolView)
    ensures
        run(crate::operator::reconcile_start::<E>(pool), absent_replies(pool))
            == crate::operator::early::<E>(pool, None, Phase::ListingLabeled),
{
    if crate::operator::recorded_id(pool) is Some || crate::operator::awaits_sync(pool) {
        lemma_run_two::<E>(
            crate::operator::reconcile_start::<E>(pool)->Pending_0,
            ReplyView::Found(None),
            ReplyView::Patched,
        );
    }
}

proof fn lemma_present<E>(
    pool: ManagedNodePoolView,
    found: NodePoolView,
    updated: NodePoolView,
)
    requires
        crate::operator::recorded_id(pool) is Some || crate::operator::awaits_sync(pool),
        crate::operator::recorded_id(pool) is Some ==> can_update(pool, found),
    ensures
        run(crate::operator::reconcile_start::<E>(pool), present_replies(pool, found, updated))
            == crate::operator::early::<E>(pool, Some(found), Phase::ListingLabeled),
{
    let session = crate::operator::reconcile_start::<E>(pool)->Pending_0;
    if crate::operator::awaits_sync(pool) {
        lemma_run_two::<E>(session, ReplyView::Found(Some(found)), ReplyView::Patched);
    } else if crate::pool::sizes_differ(pool.spec.settings, found.settings) {
        lemma_run_two::<E>(session, ReplyView::Found(Some(found)), ReplyView::Updated(updated));
    } else {
        lemma_run_one::<E>(session, ReplyView::Found(Some(found)));
    }
}

/// Once it is known whether there is a node pool, a pass lists and marks the pods
/// and then decides.
proof fn lemma_pods_read<E>(
    start: ProgressView<E>,
    first: Seq<ReplyView<E>>,
    pool: ManagedNodePoolView,
    node_pool: Option<NodePoolView>,
    labeled: Seq<PodView>,
    pending: Seq<PodView>,
)
    requires
        run(start, first) == crate::operator::early::<E>(pool, node_pool, Phase::ListingLabeled),
        can_mark(pool, crate::pods::listed_pods(labeled, pending, pool)),
    ensures
        run(start, first + pod_replies::<E>(pool, labeled, pending))
            == crate::operator::after_marking::<E>(
            pool,
            node_pool,
            crate::pods::listed_pods(labeled, pending, pool),
        ),
{
    let pods = crate::pods::listed_pods(labeled, pending, pool);
    let lists = seq![ReplyView::<E>::Pods(labeled), ReplyView::Pods(pending)];
    let patches = patched_times::<E>(unlabeled_between(pods, 0, pods.len() as int));
    let listing = run(start, first);
    lemma_run_on(start, first, lists + patches);
    lemma_run_on(listing, lists, patches);
    lemma_run_two::<E>(
        listing->Pending_0,
        ReplyView::Pods(labeled),
        ReplyView::Pods(pending),
    );
    law_each_unlabeled_pod_is_marked::<E>(pool, node_pool, pods, 0, pods.len() as int);
}

/// Where there are pods for a pool and no node pool, a pass whose calls succeed
/// marks the pods, brings a node pool up and records it.
pub proof fn law_demand_brings_pool_up<E>(
    pool: ManagedNodePoolView,
    labeled: Seq<PodView>,
    pending: Seq<PodView>,
    created: NodePoolView,
)
    requires
        crate::pool::pool_full_name(pool) is Ok,
        crate::pool::pool_taint(pool) is Ok,
        crate::pods::listed_pods(labeled, pending, pool).len() > 0,
    ensures
        ({
            let start = crate::operator::reconcile_start::<E>(pool);
            let marked = absent_replies::<E>(pool) + pod_replies::<E>(pool, labeled, pending);
            let announced = marked.push(ReplyView::Patched);
            let made = announced.push(ReplyView::Created(created));
            &&& run(start, marked) matches ProgressView::Pending(session) && session.request()
                == crate::operator::status_patch(crate::operator::creating_status())
            &&& run(start, announced) matches ProgressView::Pending(session) && session.request()
                == (RequestView::CreatePool {
                settings: crate::pool::patched_settings(pool.spec.settings, pool)->Ok_0,
            })
            &&& run(start, made) matches ProgressView::Pending(session) && session.request()
                == crate::operator::status_patch(crate::operator::created_status(created.id))
            &&& run(start, made.push(ReplyView::Patched)) == crate::operator::settled::<E>()
        }),
{
    let start = crate::operator::reconcile_start::<E>(pool);
    let marked = absent_replies::<E>(pool) + pod_replies::<E>(pool, labeled, pending);
    let announced = marked.push(ReplyView::Patched);
    let made = announced.push(ReplyView::Created(created));
    lemma_absent::<E>(pool);
    lemma_pods_read(start, absent_replies(pool), pool, None, labeled, pending);
    assert(announced.drop_last() =~= marked);
    assert(made.drop_last() =~= announced);
    assert(made.push(ReplyView::Patched).drop_last() =~= made);
}

/// Whether a pod, of the labeled or of the pending ones, keeps the pool up.
pub open spec fn is_demanded(
    labeled: Seq<PodView>,
    pending: Seq<PodView>,
    pool: ManagedNodePoolView,
) -> bool {
    ||| exists|i: int|
        0 <= i < labeled.len() && crate::pods::labeled_keeps_up(#[trigger] labeled[i], pool)
    ||| exists|i: int| 0 <= i < pending.len() && crate::pods::keeps_up(#[trigger] pending[i], pool)
}

/// There is demand for a pool exactly where a labeled pod asks for it or bears its full
/// name, or a pending pod asks for it, and that pod has not finished.
pub proof fn law_demand_comes_from_pods(
    pool: ManagedNodePoolView,
    labeled: Seq<PodView>,
    pending: Seq<PodView>,
)
    ensures
        crate::pods::listed_pods(labeled, pending, pool).len() > 0 <==> is_demanded(
            labeled,
            pending,
            pool,
        ),
{
    let labeled_keeping = |pod: PodView| crate::pods::labeled_keeps_up(pod, pool);
    let keeping = |pod: PodView| crate::pods::keeps_up(pod, pool);
    lemma_kept(labeled, labeled_keeping);
    lemma_kept(pending, keeping);
    if exists|i: int| 0 <= i < labeled.len() && labeled_keeping(#[trigger] labeled[i]) {
        let i = choose|i: int| 0 <= i < labeled.len() && labeled_keeping(#[trigger] labeled[i]);
        assert(crate::pods::labeled_keeps_up(labeled[i], pool));
    }
    if exists|i: int| 0 <= i < pending.len() && keeping(#[trigger] pending[i]) {
        let i = choose|i: int| 0 <= i < pending.len() && keeping(#[trigger] pending[i]);
        assert(crate::pods::keeps_up(pending[i], pool));
    }
}

proof fn lemma_kept(pods: Seq<PodView>, keep: spec_fn(PodView) -> bool)
    ensures
        pods.filter(keep).len() > 0 <==> exists|i: int|
            0 <= i < pods.len() && keep(#[trigger] pods[i]),
{
    if exists|i: int| 0 <= i < pods.len() && keep(#[trigger] pods[i]) {
        let i = choose|i: int| 0 <= i < pods.len() && keep(#[trigger] pods[i]);
        pods.lemma_filter_contains(keep, i);
    }
    if pods.filter(keep).len() > 0 {
        pods.lemma_filter_pred(keep, 0);
        pods.lemma_filter_contains_rev(keep, pods.filter(keep)[0]);
    }
}

/// Where there are neither pods for a pool nor a node pool, nothing is created: the
/// pass ends with the listing of the pods.
pub proof fn law_no_demand_creates_nothing<E>(
    pool: ManagedNodePoolView,
    labeled: Seq<PodView>,
    pending: Seq<PodView>,
)
    requires
        !is_demanded(labeled, pending, pool),
    ensures
        run(
            crate::operator::reconcile_start::<E>(pool),
            absent_replies::<E>(pool) + seq![ReplyView::Pods(labeled), ReplyView::Pods(pending)],
        ) == crate::operator::settled::<E>(),
{
    lemma_absent::<E>(pool);
    lemma_no_pods::<E>(pool, labeled, pending);
    lemma_pods_read(
        crate::operator::reconcile_start::<E>(pool),
        absent_replies(pool),
        pool,
        None,
        labeled,
        pending,
    );
}

/// A node pool that has pods is kept: the pass updates it if that is called for,
/// marks the pods that lack the label, and ends.
pub proof fn law_pool_in_use_stays<E>(
    pool: ManagedNodePoolView,
    found: NodePoolView,
    updated: NodePoolView,
    labeled: Seq<PodView>,
    pending: Seq<PodView>,
)
    requires
        crate::operator::recorded_id(pool) is Some || crate::operator::awaits_sync(pool),
        crate::operator::recorded_id(pool) is Some ==> can_update(pool, found),
        can_mark(pool, crate::pods::listed_pods(labeled, pending, pool)),
        crate::pods::listed_pods(labeled, pending, pool).len() > 0,
    ensures
        run(
            crate::operator::reconcile_start::<E>(pool),
            present_replies::<E>(pool, found, updated) + pod_replies::<E>(pool, labeled, pending),
        ) == crate::operator::settled::<E>(),
{
    lemma_present::<E>(pool, found, updated);
    lemma_pods_read(
        crate::operator::reconcile_start::<E>(pool),
        present_replies(pool, found, updated),
        pool,
        Some(found),
        labeled,
        pending,
    );
}

/// A node pool that was found by name stays for this pass, though it has no pods: it
/// is recorded, and only a later pass decides when it is to go.
pub proof fn law_synced_pool_stays<E>(
    pool: ManagedNodePoolView,
    found: NodePoolView,
    labeled: Seq<PodView>,
    pending: Seq<PodView>,
)
    requires
        crate::operator::awaits_sync(pool),
        !is_demanded(labeled, pending, pool),
    ensures
        run(
            crate::operator::reconcile_start::<E>(pool),
            seq![
                ReplyView::Found(Some(found)),
                ReplyView::Patched,
                ReplyView::Pods(labeled),
                ReplyView::Pods(pending),
            ],
        ) == crate::operator::settled::<E>(),
{
    let first = present_replies::<E>(pool, found, found);
    let lists = seq![ReplyView::<E>::Pods(labeled), ReplyView::Pods(pending)];
    lemma_present::<E>(pool, found, found);
    lemma_no_pods::<E>(pool, labeled, pending);
    lemma_pods_read(
        crate::operator::reconcile_start::<E>(pool),
        first,
        pool,
        Some(found),
        labeled,
        pending,
    );
    assert(first + lists =~= seq![
        ReplyView::Found(Some(found)),
        ReplyView::Patched,
        ReplyView::Pods(labeled),
        ReplyView::Pods(pending),
    ]);
}

/// Changed sizes are applied: where the recorded node pool has other sizes than the
/// user asks for, the settings that the user asks for are sent, marked as the
/// pool's, and the pass goes on to list the pods.
pub proof fn law_changed_sizes_are_applied<E>(
    pool: ManagedNodePoolView,
    found: NodePoolView,
    updated: NodePoolView,
)
    requires
        crate::operator::recorded_id(pool) is Some,
        crate::pool::sizes_differ(pool.spec.settings, found.settings),
        crate::pool::patched_settings(pool.spec.settings, pool) is Ok,
    ensures
        ({
            let start = crate::operator::reconcile_start::<E>(pool);
            let looked_up = seq![ReplyView::<E>::Found(Some(found))];
            &&& run(start, looked_up) matches ProgressView::Pending(session) && session.request()
                == (RequestView::UpdatePoolById {
                id: found.id,
                settings: crate::pool::patched_settings(pool.spec.settings, pool)->Ok_0,
            })
            &&& run(start, looked_up.push(ReplyView::Updated(updated)))
                == crate::operator::early::<E>(pool, Some(found), Phase::ListingLabeled)
        }),
{
    let looked_up = seq![ReplyView::<E>::Found(Some(found))];
    lemma_run_one::<E>(
        crate::operator::reconcile_start::<E>(pool)->Pending_0,
        ReplyView::Found(Some(found)),
    );
    assert(looked_up.push(ReplyView::Updated(updated)).drop_last() =~= looked_up);
}

/// The replies of a pass that finds the recorded node pool, and that list these pods.
pub open spec fn idle_replies<E>(
    pool: ManagedNodePoolView,
    found: NodePoolView,
    updated: NodePoolView,
    labeled: Seq<PodView>,
    pending: Seq<PodView>,
) -> Seq<ReplyView<E>> {
    present_replies::<E>(pool, found, updated) + seq![
        ReplyView::Pods(labeled),
        ReplyView::Pods(pending),
    ]
}

/// A pass that finds the recorded node pool and no pods that keep it up goes straight
/// to deciding when it is to go.
proof fn lemma_idle_pass<E>(
    pool: ManagedNodePoolView,
    found: NodePoolView,
    updated: NodePoolView,
    labeled: Seq<PodView>,
    pending: Seq<PodView>,
)
    requires
        crate::operator::recorded_id(pool) is Some,
        can_update(pool, found),
        !is_demanded(labeled, pending, pool),
    ensures
        run(
            crate::operator::reconcile_start::<E>(pool),
            idle_replies(pool, found, updated, labeled, pending),
        ) == crate::operator::after_marking::<E>(pool, Some(found), Seq::empty()),
{
    lemma_present::<E>(pool, found, updated);
    lemma_no_pods::<E>(pool, labeled, pending);
    lemma_pods_read(
        crate::operator::reconcile_start::<E>(pool),
        present_replies(pool, found, updated),
        pool,
        Some(found),
        labeled,
        pending,
    );
}

/// Where no pod keeps the pool up, there is none to mark.
proof fn lemma_no_pods<E>(
    pool: ManagedNodePoolView,
    labeled: Seq<PodView>,
    pending: Seq<PodView>,
)
    requires
        !is_demanded(labeled, pending, pool),
    ensures
        crate::pods::listed_pods(labeled, pending, pool) == Seq::<PodView>::empty(),
        pod_replies::<E>(pool, labeled, pending) == seq![
            ReplyView::<E>::Pods(labeled),
            ReplyView::Pods(pending),
        ],
{
    law_demand_comes_from_pods(pool, labeled, pending);
    assert(crate::pods::listed_pods(labeled, pending, pool) =~= Seq::empty());
    assert(pod_replies::<E>(pool, labeled, pending) =~= seq![
        ReplyView::<E>::Pods(labeled),
        ReplyView::Pods(pending),
    ]);
}

/// A node pool that no pod keeps up goes at once where there is no idle timeout: it is
/// destroyed and the status is blanked.
pub proof fn law_idle_pool_goes<E>(
    pool: ManagedNodePoolView,
    found: NodePoolView,
    updated: NodePoolView,
    labeled: Seq<PodView>,
    pending: Seq<PodView>,
    existed: bool,
)
    requires
        crate::operator::recorded_id(pool) is Some,
        pool.spec.idle_timeout is None,
        can_update(pool, found),
        !is_demanded(labeled, pending, pool),
    ensures
        ({
            let start = crate::operator::reconcile_start::<E>(pool);
            let idle = idle_replies::<E>(pool, found, updated, labeled, pending);
            let gone = idle.push(ReplyView::Destroyed(existed));
            &&& run(start, idle) matches ProgressView::Pending(session) && session.request() == (
            RequestView::DestroyPoolById { id: crate::operator::recorded_id(pool)->0 })
            &&& run(start, gone) matches ProgressView::Pending(session) && session.request()
                == crate::operator::status_patch(ManagedNodePoolStatusView::blank())
            &&& run(start, gone.push(ReplyView::Patched)) == crate::operator::settled::<E>()
        }),
{
    let idle = idle_replies::<E>(pool, found, updated, labeled, pending);
    let gone = idle.push(ReplyView::Destroyed(existed));
    lemma_idle_pass::<E>(pool, found, updated, labeled, pending);
    assert(gone.drop_last() =~= idle);
    assert(gone.push(ReplyView::Patched).drop_last() =~= gone);
}

/// The time at which an idle node pool is to go stands once it is recorded: an idle
/// pass at or after that time destroys the node pool and blanks the status, whenever
/// the node pool became idle, and one before it leaves the node pool for the time that
/// remains.
pub proof fn law_recorded_deadline_is_kept<E>(
    pool: ManagedNodePoolView,
    found: NodePoolView,
    updated: NodePoolView,
    labeled: Seq<PodView>,
    pending: Seq<PodView>,
    now: int,
    later: int,
    existed: bool,
)
    requires
        crate::operator::recorded_id(pool) is Some,
        crate::operator::recorded_deadline(pool) is Some,
        pool.spec.idle_timeout is Some,
        can_update(pool, found),
        !is_demanded(labeled, pending, pool),
    ensures
        ({
            let deadline = crate::operator::recorded_deadline(pool)->0;
            let start = crate::operator::reconcile_start::<E>(pool);
            let read = idle_replies::<E>(pool, found, updated, labeled, pending).push(
                ReplyView::Clock(now),
            );
            let gone = read.push(ReplyView::Destroyed(existed));
            &&& deadline <= now ==> {
                &&& run(start, read) matches ProgressView::Pending(session) && session.request()
                    == (RequestView::DestroyPoolById { id: crate::operator::recorded_id(pool)->0 })
                &&& run(start, gone) matches ProgressView::Pending(session) && session.request()
                    == crate::operator::status_patch(ManagedNodePoolStatusView::blank())
                &&& run(start, gone.push(ReplyView::Patched)) == crate::operator::settled::<E>()
            }
            &&& now < deadline ==> run(start, read.push(ReplyView::Clock(later)))
                == ProgressView::<E>::Done(
                Ok(
                    ActionView::Requeue(
                        if later <= deadline {
                            (deadline - later) as nat
                        } else {
                            0
                        },
                    ),
                ),
            )
        }),
{
    let idle = idle_replies::<E>(pool, found, updated, labeled, pending);
    let read = idle.push(ReplyView::Clock(now));
    let gone = read.push(ReplyView::Destroyed(existed));
    lemma_idle_pass::<E>(pool, found, updated, labeled, pending);
    assert(read.drop_last() =~= idle);
    assert(read.push(ReplyView::Clock(later)).drop_last() =~= read);
    assert(gone.drop_last() =~= read);
    assert(gone.push(ReplyView::Patched).drop_last() =~= gone);
}

/// The status of a recorded node pool that exists is written only where no pod keeps
/// it up. So a pass with pods leaves a time at which the node pool is to go as it was
/// recorded.
pub proof fn law_pool_in_use_keeps_its_status<E>(
    pool: ManagedNodePoolView,
    replies: Seq<ReplyView<E>>,
)
    requires
        crate::operator::recorded_id(pool) is Some,
        found_pool(replies),
        run(crate::operator::reconcile_start(pool), replies) matches ProgressView::Pending(session)
            && session.request() is PatchPoolStatus,
    ensures
        listed(replies, pool, Seq::empty()),
{
    lemma_told(pool, replies);
    if let ProgressView::Pending(session) = run(crate::operator::reconcile_start(pool), replies) {
        assert(session.pods =~= Seq::empty());
    }
}

/// A node pool that becomes idle while no time is recorded at which it is to go gets its
/// full idle timeout: the first idle pass records when it is to go, and a later idle
/// pass over what was recorded destroys it if that time has come, and else leaves it
/// for the time that remains. A time that is already recorded is kept instead.
pub proof fn law_idle_timeout_is_honoured<E>(
    pool: ManagedNodePoolView,
    found: NodePoolView,
    updated: NodePoolView,
    labeled: Seq<PodView>,
    pending: Seq<PodView>,
    idle_from: int,
    later_found: NodePoolView,
    later_updated: NodePoolView,
    later_labeled: Seq<PodView>,
    later_pending: Seq<PodView>,
    later: int,
    even_later: int,
)
    requires
        crate::operator::recorded_id(pool) is Some,
        crate::operator::recorded_deadline(pool) is None,
        pool.spec.idle_timeout is Some,
        can_update(pool, found),
        can_update(pool, later_found),
        !is_demanded(labeled, pending, pool),
        !is_demanded(later_labeled, later_pending, pool),
    ensures
        ({
            let timeout = pool.spec.idle_timeout->0;
            let deadline = idle_from + timeout;
            let recorded = ManagedNodePoolStatusView {
                destroy_after: Some(deadline),
                ..pool.status->0
            };
            let start = crate::operator::reconcile_start::<E>(pool);
            let scheduled = idle_replies::<E>(pool, found, updated, labeled, pending).push(
                ReplyView::Clock(idle_from),
            );
            let later_pool = ManagedNodePoolView { status: Some(recorded), ..pool };
            let later_start = crate::operator::reconcile_start::<E>(later_pool);
            let read = idle_replies::<E>(
                later_pool,
                later_found,
                later_updated,
                later_labeled,
                later_pending,
            ).push(ReplyView::Clock(later));
            &&& run(start, scheduled) matches ProgressView::Pending(session) && session.request()
                == crate::operator::status_patch(recorded)
            &&& run(start, scheduled.push(ReplyView::Patched)) == ProgressView::<E>::Done(
                Ok(ActionView::Requeue(timeout)),
            )
            &&& deadline <= later ==> (run(
                later_start,
                read,
            ) matches ProgressView::Pending(session) && session.request() == (
            RequestView::DestroyPoolById { id: crate::operator::recorded_id(pool)->0 }))
            &&& later < deadline ==> run(later_start, read.push(ReplyView::Clock(even_later)))
                == ProgressView::<E>::Done(
                Ok(
                    ActionView::Requeue(
                        if even_later <= deadline {
                            (deadline - even_later) as nat
                        } else {
                            0
                        },
                    ),
                ),
            )
        }),
{
    let deadline = idle_from + pool.spec.idle_timeout->0;
    let recorded = ManagedNodePoolStatusView { destroy_after: Some(deadline), ..pool.status->0 };
    let idle = idle_replies::<E>(pool, found, updated, labeled, pending);
    let scheduled = idle.push(ReplyView::Clock(idle_from));
    let later_pool = ManagedNodePoolView { status: Some(recorded), ..pool };
    lemma_idle_pass::<E>(pool, found, updated, labeled, pending);
    assert(scheduled.drop_last() =~= idle);
    assert(scheduled.push(ReplyView::Patched).drop_last() =~= scheduled);
    lemma_same_metadata(later_labeled, later_pending, pool, later_pool);
    law_recorded_deadline_is_kept::<E>(
        later_pool,
        later_found,
        later_updated,
        later_labeled,
        later_pending,
        later,
        even_later,
        true,
    );
}

/// Which pods keep a pool up depends on the metadata of the pool alone.
proof fn lemma_same_metadata(
    labeled: Seq<PodView>,
    pending: Seq<PodView>,
    a: ManagedNodePoolView,
    b: ManagedNodePoolView,
)
    requires
        a.metadata == b.metadata,
    ensures
        is_demanded(labeled, pending, a) == is_demanded(labeled, pending, b),
{
    assert forall|pod: PodView|
        crate::pods::labeled_keeps_up(pod, a) == crate::pods::labeled_keeps_up(pod, b)
            && crate::pods::keeps_up(pod, a) == crate::pods::keeps_up(pod, b) by {}
}

/// Deleting a managed pool destroys its recorded node pool, if there is one, and
/// nothing else is asked for. A node pool whose creation was announced but whose id was
/// never recorded is left.
pub proof fn law_cleanup_destroys_recorded_pool<E>(pool: ManagedNodePoolView, existed: bool)
    ensures
        match crate::operator::recorded_id(pool) {
            Some(id) => crate::operator::cleanup_start::<E>(pool) matches ProgressView::Pending(
                session,
            ) && session.request() == (RequestView::DestroyPoolById { id }) && session.next(
                ReplyView::<E>::Destroyed(existed),
            ) == ProgressView::<E>::Done(Ok(ActionView::AwaitChange)),
            None => crate::operator::cleanup_start::<E>(pool) == ProgressView::<E>::Done(
                Ok(ActionView::AwaitChange),
            ),
        },
{
}

/// An idle timeout of at most `u64::MAX` nanoseconds, as every timeout is that is
/// read from a manifest, can be scheduled at any time that lies as much before the
/// last one.
pub proof fn law_read_timeout_can_be_scheduled<E>(session: SessionView, now: int)
    requires
        session.pool.spec.idle_timeout matches Some(timeout) && timeout <= u64::MAX,
        now + u64::MAX <= crate::time::last_timestamp(),
    ensures
        session.can_resume(ReplyView::<E>::Clock(now)),
{
}

} // verus!
