//! Every pass over a managed pool, from its first request to its outcome: what is asked
//! for after each reply, stated over the fields of the pool and of the replies.

use crate::model::{
    ManagedNodePoolStatusView, ManagedNodePoolView, NodePoolStatus, NodePoolView, PodView,
};
use crate::operator::{
    Action, ActionView, OperatorError, Progress, ProgressView, Reply, ReplyView, Request,
    RequestView, SessionView,
};
use crate::pool::MetadataError;
use vstd::prelude::*;

verus! {

/// The view of a request shows each field.
pub proof fn law_request_view(request: Request)
    ensures
        match request {
            Request::FindPoolById { id } => request@ == (RequestView::FindPoolById { id: id@ }),
            Request::FindPoolByName { name } => request@ == (RequestView::FindPoolByName {
                name: name@,
            }),
            Request::CreatePool { settings } => request@ == (RequestView::CreatePool {
                settings: settings@,
            }),
            Request::UpdatePoolById { id, settings } => request@ == (RequestView::UpdatePoolById {
                id: id@,
                settings: settings@,
            }),
            Request::DestroyPoolById { id } => request@ == (RequestView::DestroyPoolById {
                id: id@,
            }),
            Request::ListPodsWithLabels { label_selector } => request@ == (
            RequestView::ListPodsWithLabels { label_selector: label_selector@ }),
            Request::ListPodsWithFields { field_selector } => request@ == (
            RequestView::ListPodsWithFields { field_selector: field_selector@ }),
            Request::PatchPod { pod, manager } => request@ == (RequestView::PatchPod {
                pod: pod@,
                manager: manager@,
            }),
            Request::PatchPoolStatus { status, manager } => request@ == (
            RequestView::PatchPoolStatus { status: status@, manager: manager@ }),
            Request::ReadClock => request@ == RequestView::ReadClock,
        },
{
}

/// The view of a reply shows what it brings.
pub proof fn law_reply_view<E>(reply: Reply<E>)
    ensures
        match reply {
            Reply::Found(Some(pool)) => reply@ == ReplyView::<E>::Found(Some(pool@)),
            Reply::Found(None) => reply@ == ReplyView::<E>::Found(None),
            Reply::Created(pool) => reply@ == ReplyView::<E>::Created(pool@),
            Reply::Updated(pool) => reply@ == ReplyView::<E>::Updated(pool@),
            Reply::Destroyed(existed) => reply@ == ReplyView::<E>::Destroyed(existed),
            Reply::Pods(pods) => reply@ matches ReplyView::Pods(seen) && seen.len() == pods@.len()
                && forall|i: int| 0 <= i < pods@.len() ==> #[trigger] seen[i] == pods@[i]@,
            Reply::Patched => reply@ == ReplyView::<E>::Patched,
            Reply::Clock(now) => reply@ == ReplyView::<E>::Clock(now@),
            Reply::Failed(e) => reply@ == ReplyView::Failed(e),
        },
{
}

/// The view of an outcome shows the action with its time, or the error.
pub proof fn law_outcome_view<E>(outcome: Result<Action, OperatorError<E>>)
    ensures
        Progress::Done(outcome)@ == match outcome {
            Ok(Action::Requeue(after)) => ProgressView::Done(Ok(ActionView::Requeue(after@))),
            Ok(Action::AwaitChange) => ProgressView::Done(Ok(ActionView::AwaitChange)),
            Err(e) => ProgressView::Done(Err(e)),
        },
{
}

/// A pass that goes on goes on with the session.
pub proof fn law_pending_view<E>(session: crate::operator::Session)
    ensures
        Progress::<E>::Pending(session)@ == ProgressView::<E>::Pending(session@),
{
}

/// Where a pass over an existing pool stands after these replies.
pub open spec fn after<E>(
    pool: ManagedNodePoolView,
    replies: Seq<ReplyView<E>>,
) -> ProgressView<E> {
    crate::laws::run(crate::operator::reconcile_start(pool), replies)
}

/// Whether a pass goes on, and with this request.
pub open spec fn asks<E>(progress: ProgressView<E>, request: RequestView) -> bool {
    progress matches ProgressView::Pending(session) && session.request() == request
}

/// Whether a pass is over, and another one starts an hour later.
pub open spec fn rests<E>(progress: ProgressView<E>) -> bool {
    progress == ProgressView::<E>::Done(Ok(ActionView::Requeue(3_600_000_000_000)))
}

/// Whether a pass is over because of what the metadata lacks.
pub open spec fn misses<E>(progress: ProgressView<E>, e: MetadataError) -> bool {
    progress == ProgressView::<E>::Done(Err(OperatorError::Metadata(e)))
}

/// The request for the labeled pods.
pub open spec fn labeled_wanted() -> RequestView {
    RequestView::ListPodsWithLabels { label_selector: "dgolubets.github.io/managed-node-pool"@ }
}

/// The request that records this.
pub open spec fn recording(
    node_pool_id: Option<Seq<char>>,
    node_pool_status: Option<NodePoolStatus>,
    destroy_after: Option<int>,
) -> RequestView {
    RequestView::PatchPoolStatus {
        status: ManagedNodePoolStatusView { node_pool_id, node_pool_status, destroy_after },
        manager: "dgolubets.github.io/managed-node-pool"@,
    }
}

/// Whether the status records a node pool with this id.
pub open spec fn records(pool: ManagedNodePoolView, id: Seq<char>) -> bool {
    pool.status is Some && pool.status->0.node_pool_id == Some(id)
}

/// Whether the status announces a node pool that is not recorded yet.
pub open spec fn announces(pool: ManagedNodePoolView) -> bool {
    pool.status is Some && pool.status->0.node_pool_id is None && pool.status->0.node_pool_status
        == Some(NodePoolStatus::CREATING)
}

/// Whether the node pool has one of its sizes other than asked for.
pub open spec fn differs(pool: ManagedNodePoolView, found: NodePoolView) -> bool {
    ||| pool.spec.settings.count != found.settings.count
    ||| pool.spec.settings.min_count != found.settings.min_count
    ||| pool.spec.settings.max_count != found.settings.max_count
}

/// Whether the pool has all that marks are made of.
pub open spec fn complete(pool: ManagedNodePoolView) -> bool {
    pool.metadata.uid is Some && pool.metadata.name is Some && pool.metadata.namespace is Some
}

/// A pass starts with the node pool that is recorded, else with the one that is
/// announced, else with the pods.
pub proof fn law_first_request<E>(pool: ManagedNodePoolView, id: Seq<char>)
    ensures
        records(pool, id) ==> asks(
            after::<E>(pool, Seq::empty()),
            RequestView::FindPoolById { id },
        ),
        announces(pool) ==> asks(
            after::<E>(pool, Seq::empty()),
            RequestView::FindPoolByName { name: pool.spec.settings.name },
        ),
        pool.status is None || (pool.status->0.node_pool_id is None && !announces(pool)) ==> asks(
            after::<E>(pool, Seq::empty()),
            labeled_wanted(),
        ),
{
}

/// The reply to the lookup of a recorded node pool: one that is gone is forgotten, one
/// of another size is updated with the marked settings, and then, as at once for one of
/// the right size, the pods are listed.
pub proof fn law_after_lookup<E>(
    pool: ManagedNodePoolView,
    id: Seq<char>,
    found: NodePoolView,
    updated: NodePoolView,
)
    requires
        records(pool, id),
    ensures
        asks(after::<E>(pool, seq![ReplyView::Found(None)]), recording(None, None, None)),
        asks(after::<E>(pool, seq![ReplyView::Found(None), ReplyView::Patched]), labeled_wanted()),
        !differs(pool, found) ==> asks(
            after::<E>(pool, seq![ReplyView::Found(Some(found))]),
            labeled_wanted(),
        ),
        differs(pool, found) && complete(pool) ==> asks(
            after::<E>(pool, seq![ReplyView::Found(Some(found))]),
            RequestView::UpdatePoolById {
                id: found.id,
                settings: crate::pool::patched_settings(pool.spec.settings, pool)->Ok_0,
            },
        ) && crate::pool::patched_settings(pool.spec.settings, pool) is Ok && asks(
            after::<E>(pool, seq![ReplyView::Found(Some(found)), ReplyView::Updated(updated)]),
            labeled_wanted(),
        ),
        differs(pool, found) && !complete(pool) ==> misses(
            after::<E>(pool, seq![ReplyView::Found(Some(found))]),
            if pool.metadata.uid is None {
                MetadataError::MissingPoolUid
            } else if pool.metadata.name is None {
                MetadataError::MissingPoolName
            } else {
                MetadataError::MissingPoolNamespace
            },
        ),
{
    let session = after::<E>(pool, Seq::empty())->Pending_0;
    crate::laws::lemma_run_one::<E>(session, ReplyView::Found(None));
    crate::laws::lemma_run_one::<E>(session, ReplyView::Found(Some(found)));
    crate::laws::lemma_run_two::<E>(session, ReplyView::Found(None), ReplyView::Patched);
    if differs(pool, found) && complete(pool) {
        crate::laws::lemma_run_two::<E>(
            session,
            ReplyView::Found(Some(found)),
            ReplyView::Updated(updated),
        );
    }
}

/// The reply to the lookup of an announced node pool: one that exists is recorded, one
/// that does not is forgotten, and then the pods are listed.
pub proof fn law_after_sync<E>(pool: ManagedNodePoolView, found: NodePoolView)
    requires
        announces(pool),
    ensures
        asks(after::<E>(pool, seq![ReplyView::Found(None)]), recording(None, None, None)),
        asks(after::<E>(pool, seq![ReplyView::Found(None), ReplyView::Patched]), labeled_wanted()),
        asks(
            after::<E>(pool, seq![ReplyView::Found(Some(found))]),
            recording(Some(found.id), Some(NodePoolStatus::CREATED), None),
        ),
        asks(
            after::<E>(pool, seq![ReplyView::Found(Some(found)), ReplyView::Patched]),
            labeled_wanted(),
        ),
{
    let session = after::<E>(pool, Seq::empty())->Pending_0;
    crate::laws::lemma_run_one::<E>(session, ReplyView::Found(None));
    crate::laws::lemma_run_one::<E>(session, ReplyView::Found(Some(found)));
    crate::laws::lemma_run_two::<E>(session, ReplyView::Found(None), ReplyView::Patched);
    crate::laws::lemma_run_two::<E>(session, ReplyView::Found(Some(found)), ReplyView::Patched);
}

/// Whether these first replies of a pass tell that this is the node pool, if there is
/// one.
pub open spec fn tells<E>(
    pool: ManagedNodePoolView,
    first: Seq<ReplyView<E>>,
    node_pool: Option<NodePoolView>,
) -> bool {
    let status = pool.status;
    let recorded = status is Some && status->0.node_pool_id is Some;
    match node_pool {
        None => if recorded || announces(pool) {
            first == seq![ReplyView::<E>::Found(None), ReplyView::Patched]
        } else {
            first == Seq::<ReplyView<E>>::empty()
        },
        Some(found) => if announces(pool) {
            first == seq![ReplyView::<E>::Found(Some(found)), ReplyView::Patched]
        } else if recorded && differs(pool, found) {
            complete(pool) && first.len() == 2 && first[0] == ReplyView::<E>::Found(Some(found))
                && first[1] is Updated
        } else {
            recorded && first == seq![ReplyView::<E>::Found(Some(found))]
        },
    }
}

proof fn lemma_tells<E>(
    pool: ManagedNodePoolView,
    first: Seq<ReplyView<E>>,
    node_pool: Option<NodePoolView>,
)
    requires
        tells(pool, first, node_pool),
    ensures
        after(pool, first) == crate::operator::early::<E>(
            pool,
            node_pool,
            crate::operator::Phase::ListingLabeled,
        ),
{
    if first.len() > 0 {
        let session = after::<E>(pool, Seq::empty())->Pending_0;
        if first.len() == 1 {
            assert(first =~= seq![first[0]]);
            crate::laws::lemma_run_one::<E>(session, first[0]);
        } else {
            assert(first =~= seq![first[0], first[1]]);
            crate::laws::lemma_run_two::<E>(session, first[0], first[1]);
        }
    } else {
        assert(first =~= Seq::empty());
    }
}

/// Once it is known whether there is a node pool, the labeled pods are listed and then
/// the pending ones.
pub proof fn law_pods_are_listed<E>(
    pool: ManagedNodePoolView,
    first: Seq<ReplyView<E>>,
    node_pool: Option<NodePoolView>,
    labeled: Seq<PodView>,
)
    requires
        tells(pool, first, node_pool),
    ensures
        asks(after(pool, first), labeled_wanted()),
        asks(
            after(pool, first.push(ReplyView::Pods(labeled))),
            RequestView::ListPodsWithFields { field_selector: "status.phase==Pending"@ },
        ),
{
    lemma_tells(pool, first, node_pool);
    assert(first.push(ReplyView::Pods(labeled)).drop_last() =~= first);
}

/// Whether the pod carries the label of managed pools.
pub open spec fn labeled_already(pod: PodView) -> bool {
    pod.metadata.labels is Some && pod.metadata.labels->0.contains_key(
        "dgolubets.github.io/managed-node-pool"@,
    )
}

/// The replies up to the point where the first `count` of the listed pods are marked, as
/// far as they lack the label.
pub open spec fn marked_up_to<E>(
    pool: ManagedNodePoolView,
    first: Seq<ReplyView<E>>,
    labeled: Seq<PodView>,
    pending: Seq<PodView>,
    count: int,
) -> Seq<ReplyView<E>> {
    let pods = crate::pods::listed_pods(labeled, pending, pool);
    first + (seq![ReplyView::Pods(labeled), ReplyView::Pods(pending)] + Seq::new(
        pods.take(count).filter(|pod: PodView| !labeled_already(pod)).len(),
        |i: int| ReplyView::<E>::Patched,
    ))
}

proof fn lemma_unlabeled(pods: Seq<PodView>, count: int)
    requires
        0 <= count <= pods.len(),
    ensures
        crate::laws::unlabeled_between(pods, 0, count) == pods.take(count).filter(
            |pod: PodView| !labeled_already(pod),
        ).len(),
    decreases count,
{
    reveal(Seq::filter);
    if count > 0 {
        lemma_unlabeled(pods, count - 1);
        lemma_unlabeled_last(pods, 0, count);
        assert(pods.take(count).drop_last() =~= pods.take(count - 1));
        assert(pods.take(count).last() == pods[count - 1]);
    }
}

proof fn lemma_unlabeled_last(pods: Seq<PodView>, start: int, end: int)
    requires
        0 <= start < end <= pods.len(),
    ensures
        crate::laws::unlabeled_between(pods, start, end) == crate::laws::unlabeled_between(
            pods,
            start,
            end - 1,
        ) + (if crate::pods::is_labeled(pods[end - 1]) {
            0nat
        } else {
            1nat
        }),
    decreases end - start,
{
    reveal_with_fuel(crate::laws::unlabeled_between, 2);
    if start < end - 1 {
        lemma_unlabeled_last(pods, start + 1, end);
    }
}

proof fn lemma_marking<E>(
    pool: ManagedNodePoolView,
    first: Seq<ReplyView<E>>,
    node_pool: Option<NodePoolView>,
    labeled: Seq<PodView>,
    pending: Seq<PodView>,
    count: int,
)
    requires
        tells(pool, first, node_pool),
        0 <= count <= crate::pods::listed_pods(labeled, pending, pool).len(),
        complete(pool) || (forall|k: int|
            0 <= k < crate::pods::listed_pods(labeled, pending, pool).len() ==> labeled_already(
                #[trigger] crate::pods::listed_pods(labeled, pending, pool)[k],
            )),
    ensures
        ({
            let pods = crate::pods::listed_pods(labeled, pending, pool);
            let reached = after(pool, marked_up_to(pool, first, labeled, pending, count));
            &&& count < pods.len() && !labeled_already(pods[count]) ==> asks(
                reached,
                RequestView::PatchPod {
                    pod: crate::pods::pod_patch(pods[count], pool)->Ok_0,
                    manager: "dgolubets.github.io/managed-node-pool"@,
                },
            )
            &&& count == pods.len() ==> reached == crate::operator::after_marking::<E>(
                pool,
                node_pool,
                pods,
            )
        }),
{
    let pods = crate::pods::listed_pods(labeled, pending, pool);
    let lists = seq![ReplyView::<E>::Pods(labeled), ReplyView::Pods(pending)];
    let patches = crate::laws::patched_times::<E>(
        crate::laws::unlabeled_between(pods, 0, count),
    );
    let start = crate::operator::reconcile_start::<E>(pool);
    lemma_unlabeled(pods, count);
    assert(marked_up_to(pool, first, labeled, pending, count) =~= first + (lists + patches));
    lemma_tells(pool, first, node_pool);
    crate::laws::lemma_run_on(start, first, lists + patches);
    crate::laws::lemma_run_on(after(pool, first), lists, patches);
    crate::laws::lemma_run_two::<E>(
        after(pool, first)->Pending_0,
        ReplyView::Pods(labeled),
        ReplyView::Pods(pending),
    );
    assert forall|k: int|
        0 <= k < pods.len() && !crate::pods::is_labeled(
            #[trigger] pods[k],
        ) implies crate::pods::pod_patch(pods[k], pool) is Ok by {
        assert(!labeled_already(pods[k]));
    }
    crate::laws::law_each_unlabeled_pod_is_marked::<E>(pool, node_pool, pods, 0, count);
}

/// Each listed pod that lacks the label is marked in its turn, by its own patch.
pub proof fn law_pod_is_marked<E>(
    pool: ManagedNodePoolView,
    first: Seq<ReplyView<E>>,
    node_pool: Option<NodePoolView>,
    labeled: Seq<PodView>,
    pending: Seq<PodView>,
    turn: int,
)
    requires
        tells(pool, first, node_pool),
        complete(pool),
        0 <= turn < crate::pods::listed_pods(labeled, pending, pool).len(),
        !labeled_already(crate::pods::listed_pods(labeled, pending, pool)[turn]),
    ensures
        crate::pods::pod_patch(crate::pods::listed_pods(labeled, pending, pool)[turn], pool) is Ok,
        asks(
            after(pool, marked_up_to(pool, first, labeled, pending, turn)),
            RequestView::PatchPod {
                pod: crate::pods::pod_patch(
                    crate::pods::listed_pods(labeled, pending, pool)[turn],
                    pool,
                )->Ok_0,
                manager: "dgolubets.github.io/managed-node-pool"@,
            },
        ),
{
    lemma_marking(pool, first, node_pool, labeled, pending, turn);
}

/// A pool for which pods are listed has a name and a namespace.
proof fn lemma_named(pool: ManagedNodePoolView, labeled: Seq<PodView>, pending: Seq<PodView>)
    requires
        crate::pods::listed_pods(labeled, pending, pool).len() > 0,
    ensures
        pool.metadata.name is Some,
        pool.metadata.namespace is Some,
{
    crate::laws::lemma_listed_keep_up(labeled, pending, pool);
    let pod = crate::pods::listed_pods(labeled, pending, pool)[0];
    assert(crate::pods::labeled_keeps_up(pod, pool));
}

/// A pool without a uid marks no pod: the pass ends where the first one is to be marked.
pub proof fn law_unmarkable_pod_ends_pass<E>(
    pool: ManagedNodePoolView,
    first: Seq<ReplyView<E>>,
    node_pool: Option<NodePoolView>,
    labeled: Seq<PodView>,
    pending: Seq<PodView>,
    k: int,
)
    requires
        tells(pool, first, node_pool),
        pool.metadata.uid is None,
        0 <= k < crate::pods::listed_pods(labeled, pending, pool).len(),
        !labeled_already(crate::pods::listed_pods(labeled, pending, pool)[k]),
    ensures
        misses(
            after(
                pool,
                first + seq![ReplyView::Pods(labeled), ReplyView::Pods(pending)],
            ),
            MetadataError::MissingPoolUid,
        ),
{
    let pods = crate::pods::listed_pods(labeled, pending, pool);
    let lists = seq![ReplyView::<E>::Pods(labeled), ReplyView::Pods(pending)];
    lemma_named(pool, labeled, pending);
    lemma_tells(pool, first, node_pool);
    crate::laws::lemma_run_on(crate::operator::reconcile_start::<E>(pool), first, lists);
    crate::laws::lemma_run_two::<E>(
        after(pool, first)->Pending_0,
        ReplyView::Pods(labeled),
        ReplyView::Pods(pending),
    );
    crate::operator::lemma_next_unlabeled(pods, 0);
    if crate::operator::next_unlabeled(pods, 0) > k {
        assert(crate::pods::is_labeled(pods[k]));
    }
}

/// The replies of a pass up to the point where all listed pods are marked.
pub open spec fn marked<E>(
    pool: ManagedNodePoolView,
    first: Seq<ReplyView<E>>,
    labeled: Seq<PodView>,
    pending: Seq<PodView>,
) -> Seq<ReplyView<E>> {
    marked_up_to(
        pool,
        first,
        labeled,
        pending,
        crate::pods::listed_pods(labeled, pending, pool).len() as int,
    )
}

/// Whether all listed pods can be marked that lack the label.
pub open spec fn markable(
    pool: ManagedNodePoolView,
    labeled: Seq<PodView>,
    pending: Seq<PodView>,
) -> bool {
    complete(pool) || forall|k: int|
        0 <= k < crate::pods::listed_pods(labeled, pending, pool).len() ==> labeled_already(
            #[trigger] crate::pods::listed_pods(labeled, pending, pool)[k],
        )
}

/// Pods without a node pool: its creation is announced, it is created with the marked
/// settings, and it is recorded. A pool without a uid gets no further than the
/// announcement.
pub proof fn law_demand_is_met<E>(
    pool: ManagedNodePoolView,
    first: Seq<ReplyView<E>>,
    labeled: Seq<PodView>,
    pending: Seq<PodView>,
    created: NodePoolView,
)
    requires
        tells(pool, first, None),
        markable(pool, labeled, pending),
        crate::pods::listed_pods(labeled, pending, pool).len() > 0,
    ensures
        ({
            let told = marked(pool, first, labeled, pending);
            let announced = told.push(ReplyView::Patched);
            let made = announced.push(ReplyView::Created(created));
            &&& asks(after(pool, told), recording(None, Some(NodePoolStatus::CREATING), None))
            &&& pool.metadata.uid is None ==> misses(
                after(pool, announced),
                MetadataError::MissingPoolUid,
            )
            &&& pool.metadata.uid is Some ==> {
                &&& crate::pool::patched_settings(pool.spec.settings, pool) is Ok
                &&& asks(
                    after(pool, announced),
                    RequestView::CreatePool {
                        settings: crate::pool::patched_settings(pool.spec.settings, pool)->Ok_0,
                    },
                )
                &&& asks(
                    after(pool, made),
                    recording(Some(created.id), Some(NodePoolStatus::CREATED), None),
                )
                &&& rests(after(pool, made.push(ReplyView::Patched)))
            }
        }),
{
    let told = marked(pool, first, labeled, pending);
    let announced = told.push(ReplyView::Patched);
    let made = announced.push(ReplyView::Created(created));
    let pods = crate::pods::listed_pods(labeled, pending, pool);
    lemma_named(pool, labeled, pending);
    lemma_marking(pool, first, None, labeled, pending, pods.len() as int);
    assert(announced.drop_last() =~= told);
    assert(made.drop_last() =~= announced);
    assert(made.push(ReplyView::Patched).drop_last() =~= made);
}

/// Neither pods nor a node pool, both, or a node pool without pods that is only now
/// recorded: nothing more is to do.
pub proof fn law_balance_is_left_alone<E>(
    pool: ManagedNodePoolView,
    first: Seq<ReplyView<E>>,
    node_pool: Option<NodePoolView>,
    labeled: Seq<PodView>,
    pending: Seq<PodView>,
)
    requires
        tells(pool, first, node_pool),
        markable(pool, labeled, pending),
        (node_pool is Some <==> crate::pods::listed_pods(labeled, pending, pool).len() > 0)
            || (node_pool is Some && announces(pool)),
    ensures
        rests(after(pool, marked(pool, first, labeled, pending))),
{
    let pods = crate::pods::listed_pods(labeled, pending, pool);
    lemma_marking(pool, first, node_pool, labeled, pending, pods.len() as int);
}

/// Whether a pass that has had these replies destroys the node pool, forgets it and
/// ends.
pub open spec fn destroys<E>(
    pool: ManagedNodePoolView,
    replies: Seq<ReplyView<E>>,
    id: Seq<char>,
    existed: bool,
) -> bool {
    let gone = replies.push(ReplyView::Destroyed(existed));
    &&& asks(after(pool, replies), RequestView::DestroyPoolById { id })
    &&& asks(after(pool, gone), recording(None, None, None))
    &&& rests(after(pool, gone.push(ReplyView::Patched)))
}

/// A recorded node pool without pods: without an idle timeout it goes at once; with one
/// it gets an end, the timeout from now; and with an end it goes once that has come, and
/// else stays for the time that remains.
pub proof fn law_idleness_is_ended<E>(
    pool: ManagedNodePoolView,
    id: Seq<char>,
    first: Seq<ReplyView<E>>,
    found: NodePoolView,
    labeled: Seq<PodView>,
    pending: Seq<PodView>,
    now: int,
    later: int,
    existed: bool,
)
    requires
        records(pool, id),
        tells(pool, first, Some(found)),
        crate::pods::listed_pods(labeled, pending, pool).len() == 0,
    ensures
        ({
            let told = marked(pool, first, labeled, pending);
            let read = told.push(ReplyView::Clock(now));
            match (pool.spec.idle_timeout, pool.status->0.destroy_after) {
                (None, _) => destroys(pool, told, id, existed),
                (Some(timeout), None) => {
                    &&& asks(after(pool, told), RequestView::ReadClock)
                    &&& asks(
                        after(pool, read),
                        recording(
                            Some(id),
                            pool.status->0.node_pool_status,
                            Some(now + timeout),
                        ),
                    )
                    &&& after(pool, read.push(ReplyView::Patched)) == ProgressView::<E>::Done(
                        Ok(ActionView::Requeue(timeout)),
                    )
                },
                (Some(_), Some(end)) => {
                    &&& asks(after(pool, told), RequestView::ReadClock)
                    &&& end <= now ==> destroys(pool, read, id, existed)
                    &&& now < end ==> asks(after(pool, read), RequestView::ReadClock) && after(
                        pool,
                        read.push(ReplyView::Clock(later)),
                    ) == ProgressView::<E>::Done(
                        Ok(
                            ActionView::Requeue(
                                if later < end {
                                    (end - later) as nat
                                } else {
                                    0
                                },
                            ),
                        ),
                    )
                },
            }
        }),
{
    let told = marked(pool, first, labeled, pending);
    let read = told.push(ReplyView::Clock(now));
    let gone = told.push(ReplyView::Destroyed(existed));
    let read_gone = read.push(ReplyView::Destroyed(existed));
    lemma_marking(pool, first, Some(found), labeled, pending, 0);
    assert(read.drop_last() =~= told);
    assert(gone.drop_last() =~= told);
    assert(read_gone.drop_last() =~= read);
    assert(gone.push(ReplyView::Patched).drop_last() =~= gone);
    assert(read_gone.push(ReplyView::Patched).drop_last() =~= read_gone);
    assert(read.push(ReplyView::Patched).drop_last() =~= read);
    assert(read.push(ReplyView::Clock(later)).drop_last() =~= read);
}

/// The deletion of a managed pool destroys the node pool that is recorded, if there is
/// one, and then waits for changes.
pub proof fn law_deletion<E>(pool: ManagedNodePoolView, id: Seq<char>, existed: bool)
    ensures
        records(pool, id) ==> asks(
            crate::operator::cleanup_start::<E>(pool),
            RequestView::DestroyPoolById { id },
        ) && crate::laws::run(
            crate::operator::cleanup_start::<E>(pool),
            seq![ReplyView::Destroyed(existed)],
        ) == ProgressView::<E>::Done(Ok(ActionView::AwaitChange)),
        pool.status is None || pool.status->0.node_pool_id is None
            ==> crate::operator::cleanup_start::<E>(pool) == ProgressView::<E>::Done(
            Ok(ActionView::AwaitChange),
        ),
{
    if records(pool, id) {
        crate::laws::lemma_run_one::<E>(
            crate::operator::cleanup_start::<E>(pool)->Pending_0,
            ReplyView::Destroyed(existed),
        );
    }
}

/// A reply of another kind than was asked for ends the pass as unexpected, and a failed
/// call ends it with its error, whatever was asked for.
pub proof fn law_wrong_replies_end_pass<E>(session: SessionView, reply: ReplyView<E>)
    ensures
        reply matches ReplyView::Failed(e) ==> session.next(reply) == ProgressView::Done(
            Err(OperatorError::Call(e)),
        ),
        !(reply is Failed) && !(match session.request() {
            RequestView::FindPoolById { .. } | RequestView::FindPoolByName { .. } => reply is Found,
            RequestView::CreatePool { .. } => reply is Created,
            RequestView::UpdatePoolById { .. } => reply is Updated,
            RequestView::DestroyPoolById { .. } => reply is Destroyed,
            RequestView::ListPodsWithLabels { .. } | RequestView::ListPodsWithFields { .. } =>
                reply is Pods,
            RequestView::PatchPod { .. } | RequestView::PatchPoolStatus { .. } => reply is Patched,
            RequestView::ReadClock => reply is Clock,
        }) ==> session.next(reply) == ProgressView::<E>::Done(Err(OperatorError::UnexpectedReply)),
{
}

/// Every reply can be taken but a time from which the idle timeout, where it is to be
/// counted from now, would lead past the last point in time.
pub proof fn law_replies_can_be_taken<E>(
    pool: ManagedNodePoolView,
    replies: Seq<ReplyView<E>>,
    reply: ReplyView<E>,
)
    requires
        after(pool, replies) is Pending,
    ensures
        after(pool, replies) matches ProgressView::Pending(session) && (session.can_resume(reply)
            <==> !(session.request() is ReadClock && pool.status->0.destroy_after is None && (
        reply matches ReplyView::Clock(now) && now + pool.spec.idle_timeout->0
            > 0x7fff_ffff_ffff_ffff * 1_000_000_000 + 999_999_999))),
{
    crate::laws::lemma_reached(pool, replies);
}

} // verus!
