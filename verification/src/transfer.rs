//! Two-phase cross-window tab-ownership transfer.
//!
//! The source window captures a value-copy of the tab and publishes a
//! request carrying a fresh unique identifier ([`begin_transfer`]); the tab
//! stays physically present in the source collection. While waiting for an
//! answer, every inbound event is judged by [`transfer_step`]: only a
//! response bearing the matching identifier decides the transfer — an Ack
//! commits, a Nack rejects, anything else is concurrent noise to be ignored.
//! A timeout or a failed publish aborts. Ownership moves at exactly one
//! point: [`resolve_transfer`] removes the tab on a commit verdict and
//! touches nothing otherwise, so rollback is implicit. The target side
//! ([`handle_transfer_request`]) adopts the tab and answers at most once per
//! identifier.
//!
//! The embedding must subscribe to the response channel before publishing
//! the request; otherwise a fast responder's reply can be lost.

use vstd::prelude::*;

use crate::WindowId;
use crate::collection::TabCollection;
use crate::collection::active_after_close;
use crate::collection::transferable_spec;
use crate::tabs::Tab;

verus! {

/// The request the source publishes on the shared broadcast channel. All
/// windows receive it; only the addressed target acts on it. It carries a
/// value-copy of the tab, which still resides in the source collection until
/// the transfer commits.
#[derive(Debug, Clone, PartialEq, Eq)]
pub struct TabTransferRequest {
    pub source_window_id: WindowId,
    pub target_window_id: WindowId,
    pub tab: Tab,
    pub source_directory: Option<String>,
    pub request_id: u128,
}

/// The target's answer, correlated with its request only by identifier.
#[derive(Debug, Clone, PartialEq, Eq)]
pub enum TabTransferResponse {
    Ack { request_id: u128, responder_window_id: WindowId },
    Nack { request_id: u128, reason: String },
}

/// The identifier a response carries.
pub open spec fn response_request_id(r: TabTransferResponse) -> u128 {
    match r {
        TabTransferResponse::Ack { request_id, .. } => request_id,
        TabTransferResponse::Nack { request_id, .. } => request_id,
    }
}

/// Whether a response belongs to the transfer with identifier `id`.
pub open spec fn response_matches(r: TabTransferResponse, id: u128) -> bool {
    response_request_id(r) == id
}

/// What the source observes while it waits: a response from the channel, the
/// timeout firing, or the publish itself having failed.
#[derive(Debug, Clone, PartialEq, Eq)]
pub enum TransferEvent {
    Response(TabTransferResponse),
    TimedOut,
    SendFailed,
}

/// What the source decides on one observed event. Only `Commit` ever mutates
/// the source collection; `Rejected`, `TimedOut` and `SendFailed` all leave
/// the tab where it is and differ only for diagnostics; `KeepWaiting` means
/// the event belonged to some other transfer.
#[derive(Debug, Clone, PartialEq, Eq)]
pub enum TransferVerdict {
    Commit { responder_window_id: WindowId },
    Rejected { reason: String },
    TimedOut,
    SendFailed,
    KeepWaiting,
}

/// The decision [`transfer_step`] reaches on one event.
pub open spec fn step_spec(id: u128, event: TransferEvent) -> TransferVerdict {
    match event {
        TransferEvent::Response(r) => if response_matches(r, id) {
            match r {
                TabTransferResponse::Ack { responder_window_id, .. } => TransferVerdict::Commit {
                    responder_window_id,
                },
                TabTransferResponse::Nack { reason, .. } => TransferVerdict::Rejected { reason },
            }
        } else {
            TransferVerdict::KeepWaiting
        },
        TransferEvent::TimedOut => TransferVerdict::TimedOut,
        TransferEvent::SendFailed => TransferVerdict::SendFailed,
    }
}

/// Judge one event observed while waiting for the answer to request `id`.
/// A response with a foreign identifier is expected noise from concurrent
/// transfers and never decides anything.
pub fn transfer_step(request_id: u128, event: TransferEvent) -> (v: TransferVerdict)
    ensures
        v == step_spec(request_id, event),
{
    match event {
        TransferEvent::Response(r) => match r {
            TabTransferResponse::Ack { request_id: id, responder_window_id } => {
                if id == request_id {
                    TransferVerdict::Commit { responder_window_id }
                } else {
                    TransferVerdict::KeepWaiting
                }
            },
            TabTransferResponse::Nack { request_id: id, reason } => {
                if id == request_id {
                    TransferVerdict::Rejected { reason }
                } else {
                    TransferVerdict::KeepWaiting
                }
            },
        },
        TransferEvent::TimedOut => TransferVerdict::TimedOut,
        TransferEvent::SendFailed => TransferVerdict::SendFailed,
    }
}

/// The first response of a stream that belongs to transfer `id` — the one
/// that decides it, since the wait stops there.
pub open spec fn first_matching_response(id: u128, responses: Seq<TabTransferResponse>) -> Option<
    TabTransferResponse,
>
    decreases responses.len(),
{
    if responses.len() == 0 {
        None
    } else if response_matches(responses[0], id) {
        Some(responses[0])
    } else {
        first_matching_response(id, responses.drop_first())
    }
}

/// The verdict a wait over the response stream `responses` reaches if no
/// timeout fires first: decided by the first matching response alone.
pub open spec fn wait_verdict(id: u128, responses: Seq<TabTransferResponse>) -> TransferVerdict {
    match first_matching_response(id, responses) {
        Some(r) => step_spec(id, TransferEvent::Response(r)),
        None => TransferVerdict::KeepWaiting,
    }
}

/// Law: a response bearing a foreign identifier, inserted anywhere into the
/// stream, leaves the transfer's decision untouched — concurrent transfers
/// correlate only through their own identifiers.
pub proof fn lemma_unrelated_response_ignored(
    id: u128,
    responses: Seq<TabTransferResponse>,
    i: int,
    r: TabTransferResponse,
)
    requires
        0 <= i <= responses.len(),
        !response_matches(r, id),
    ensures
        first_matching_response(id, responses.insert(i, r)) == first_matching_response(
            id,
            responses,
        ),
        wait_verdict(id, responses.insert(i, r)) == wait_verdict(id, responses),
    decreases responses.len(),
{
    let extended = responses.insert(i, r);
    if i == 0 {
        assert(extended[0] == r);
        assert(extended.drop_first() =~= responses);
    } else {
        assert(extended[0] == responses[0]);
        assert(extended.drop_first() =~= responses.drop_first().insert(i - 1, r));
        lemma_unrelated_response_ignored(id, responses.drop_first(), i - 1, r);
    }
}

/// Law: a commit can only come from an Ack in the stream that bears the
/// transfer's own identifier.
pub proof fn lemma_commit_needs_matching_ack(id: u128, responses: Seq<TabTransferResponse>)
    requires
        wait_verdict(id, responses) is Commit,
    ensures
        exists|j: int|
            0 <= j < responses.len() && responses[j] is Ack && response_matches(responses[j], id),
    decreases responses.len(),
{
    if response_matches(responses[0], id) {
        assert(responses[0] is Ack && response_matches(responses[0], id));
    } else {
        lemma_commit_needs_matching_ack(id, responses.drop_first());
        let j = choose|j: int|
            0 <= j < responses.drop_first().len() && responses.drop_first()[j] is Ack
                && response_matches(responses.drop_first()[j], id);
        assert(responses[j + 1] is Ack && response_matches(responses[j + 1], id));
    }
}

/// Law: when no response in the stream bears the matching identifier, the
/// stream decides nothing — the wait can then only end by the timeout, whose
/// verdict commits nothing.
pub proof fn lemma_no_match_no_decision(id: u128, responses: Seq<TabTransferResponse>)
    requires
        forall|j: int| 0 <= j < responses.len() ==> !response_matches(#[trigger] responses[j], id),
    ensures
        first_matching_response(id, responses) is None,
        wait_verdict(id, responses) == TransferVerdict::KeepWaiting,
    decreases responses.len(),
{
    if responses.len() > 0 {
        assert(!response_matches(responses[0], id));
        assert(forall|j: int|
            0 <= j < responses.drop_first().len() ==> !response_matches(
                #[trigger] responses.drop_first()[j],
                id,
            ));
        lemma_no_match_no_decision(id, responses.drop_first());
    }
}

/// Law: stepping through a stream in order arrives at exactly the stream's
/// verdict — if every response before position `k` leaves the wait
/// undecided and the one at `k` decides it, then that decision is the
/// verdict of the whole stream.
pub proof fn lemma_step_order_reaches_wait_verdict(
    id: u128,
    responses: Seq<TabTransferResponse>,
    k: int,
)
    requires
        0 <= k < responses.len(),
        forall|j: int|
            0 <= j < k ==> step_spec(id, TransferEvent::Response(#[trigger] responses[j]))
                == TransferVerdict::KeepWaiting,
        step_spec(id, TransferEvent::Response(responses[k])) != TransferVerdict::KeepWaiting,
    ensures
        wait_verdict(id, responses) == step_spec(id, TransferEvent::Response(responses[k])),
    decreases k,
{
    if k == 0 {
        assert(response_matches(responses[0], id));
    } else {
        assert(step_spec(id, TransferEvent::Response(responses[0]))
            == TransferVerdict::KeepWaiting);
        assert(!response_matches(responses[0], id));
        let rest = responses.drop_first();
        assert(forall|j: int|
            0 <= j < k - 1 ==> step_spec(id, TransferEvent::Response(#[trigger] rest[j]))
                == TransferVerdict::KeepWaiting) by {
            assert(forall|j: int| 0 <= j < k - 1 ==> rest[j] == responses[j + 1]);
        }
        assert(rest[k - 1] == responses[k]);
        lemma_step_order_reaches_wait_verdict(id, rest, k - 1);
    }
}

/// Law: a stream whose matching responses are all Acks, with at least one of
/// them, commits the transfer.
pub proof fn lemma_matching_ack_commits(id: u128, responses: Seq<TabTransferResponse>)
    requires
        exists|j: int|
            0 <= j < responses.len() && #[trigger] response_matches(responses[j], id)
                && responses[j] is Ack,
        forall|j: int|
            0 <= j < responses.len() && #[trigger] response_matches(responses[j], id)
                ==> responses[j] is Ack,
    ensures
        wait_verdict(id, responses) is Commit,
    decreases responses.len(),
{
    if response_matches(responses[0], id) {
        assert(responses[0] is Ack);
    } else {
        let j = choose|j: int|
            0 <= j < responses.len() && #[trigger] response_matches(responses[j], id)
                && responses[j] is Ack;
        assert(response_matches(responses.drop_first()[j - 1], id)
            && responses.drop_first()[j - 1] is Ack);
        assert(forall|k: int|
            0 <= k < responses.drop_first().len() && #[trigger] response_matches(
                responses.drop_first()[k],
                id,
            ) ==> responses.drop_first()[k] is Ack) by {
            assert(forall|k: int|
                0 <= k < responses.drop_first().len() ==> responses.drop_first()[k] == responses[k
                    + 1]);
        }
        lemma_matching_ack_commits(id, responses.drop_first());
    }
}

/// Relies on `uuid::Uuid::new_v4`, which draws a fresh random identifier
/// from the operating system and stamps the version-4 nibble and the
/// standard variant bits; of a random value nothing more is promised.
#[verifier::external_body]
fn fresh_request_id() -> (r: u128)
    ensures
        (r >> 76) & 0xf == 4,
        (r >> 62) & 3 == 2,
{
    uuid::Uuid::new_v4().as_u128()
}

/// Prepare phase of a transfer to an existing window: when the tab at
/// `index` is eligible (file-backed and not the sole tab), capture a
/// value-copy of it and build the request under a freshly generated
/// identifier. The source collection itself is untouched — ownership moves
/// only when a matching Ack later commits the transfer.
pub fn begin_transfer(
    state: &TabCollection,
    index: usize,
    source_window_id: WindowId,
    target_window_id: WindowId,
    source_directory: Option<String>,
) -> (r: Option<TabTransferRequest>)
    ensures
        r is Some <==> transferable_spec(*state, index as int),
        match r {
            Some(req) => {
                &&& req.source_window_id == source_window_id
                &&& req.target_window_id == target_window_id
                &&& req.tab == state.tabs@[index as int]
                &&& req.source_directory == source_directory
            },
            None => true,
        },
{
    if !state.is_transferable(index) {
        return None;
    }
    match state.get_tab(index) {
        Some(tab) => {
            let request_id = fresh_request_id();
            Some(
                TabTransferRequest {
                    source_window_id,
                    target_window_id,
                    tab,
                    source_directory,
                    request_id,
                },
            )
        },
        None => None,
    }
}

/// Apply the verdict the wait reached. On `Commit` for a still-eligible tab,
/// remove it from the source collection — the single point where ownership
/// moves — and report that it happened. Every other verdict leaves the
/// collection byte-for-byte unchanged: rollback is implicit, since the
/// prepare phase removed nothing.
pub fn resolve_transfer(state: &mut TabCollection, index: usize, verdict: &TransferVerdict) -> (committed:
    bool)
    requires
        old(state).wf(),
    ensures
        final(state).wf(),
        committed <==> (*verdict is Commit && transferable_spec(*old(state), index as int)),
        committed ==> final(state).tabs@ == old(state).tabs@.remove(index as int),
        committed ==> final(state).tabs@.len() == old(state).tabs@.len() - 1,
        committed ==> final(state).active_tab == active_after_close(
            old(state).active_tab as int,
            index as int,
            old(state).tabs@.len() - 1,
        ),
        !committed ==> *final(state) == *old(state),
{
    match verdict {
        TransferVerdict::Commit { .. } => {
            if state.is_transferable(index) {
                state.close_tab(index);
                true
            } else {
                false
            }
        },
        _ => false,
    }
}

/// Target side of the protocol. A request addressed to another window is
/// ignored without reply. A request addressed to this window is applied once
/// per identifier: the tab is adopted at the end of the collection and an
/// Ack goes back; a replayed identifier gets no second reply and is not
/// applied again.
pub fn handle_transfer_request(
    state: &mut TabCollection,
    seen_ids: &mut Vec<u128>,
    request: TabTransferRequest,
    my_window_id: WindowId,
) -> (r: Option<TabTransferResponse>)
    requires
        old(state).wf(),
    ensures
        final(state).wf(),
        request.target_window_id != my_window_id ==> r is None && *final(state) == *old(state)
            && *final(seen_ids) == *old(seen_ids),
        request.target_window_id == my_window_id && old(seen_ids)@.contains(request.request_id)
            ==> r is None && *final(state) == *old(state) && *final(seen_ids) == *old(seen_ids),
        request.target_window_id == my_window_id && !old(seen_ids)@.contains(request.request_id)
            ==> {
            &&& r == Some(
                TabTransferResponse::Ack {
                    request_id: request.request_id,
                    responder_window_id: my_window_id,
                },
            )
            &&& final(state).tabs@ == old(state).tabs@.push(request.tab)
            &&& final(state).active_tab == old(state).active_tab
            &&& final(seen_ids)@ == old(seen_ids)@.push(request.request_id)
        },
{
    if request.target_window_id.0 != my_window_id.0 {
        return None;
    }
    let mut i: usize = 0;
    while i < seen_ids.len()
        invariant
            i <= seen_ids@.len(),
            forall|j: int| 0 <= j < i ==> seen_ids@[j] != request.request_id,
            state.wf(),
            *state == *old(state),
            *seen_ids == *old(seen_ids),
        decreases seen_ids@.len() - i,
    {
        if seen_ids[i] == request.request_id {
            return None;
        }
        i = i + 1;
    }
    seen_ids.push(request.request_id);
    state.tabs.push(request.tab);
    Some(
        TabTransferResponse::Ack {
            request_id: request.request_id,
            responder_window_id: my_window_id,
        },
    )
}

} // verus!
