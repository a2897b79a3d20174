//! A model of the world a session runs in (the store, the clock, and the
//! server's answers), a whole run of a session against it, and what every
//! such run guarantees.

use vstd::prelude::*;

use crate::invite::{application_valid, validation_report, InviteTokenView};
use crate::lifecycle::{
    accepts, failure_error, stage_wf, start_spec, step_spec, DownstreamFailureView, EffectView,
    EventView, InviteErrorView, OperationView, ReplyView, SessionView, StageView,
};

verus! {

/// Every record is stored under its own token.
pub open spec fn keyed_by_token(store: Map<Seq<char>, InviteTokenView>) -> bool {
    forall|k: Seq<char>| #[trigger] store.contains_key(k) ==> store[k].token == k
}

/// `listing` holds exactly the records of `store`, in some order.
pub open spec fn lists(store: Map<Seq<char>, InviteTokenView>, listing: Seq<InviteTokenView>) -> bool {
    forall|r: InviteTokenView|
        #[trigger] listing.contains(r) <==> exists|k: Seq<char>|
            #[trigger] store.contains_key(k) && store[k] == r
}

/// A store that answers every call, the clock, and what the server answers
/// to each call.
pub ghost struct World {
    pub store: Map<Seq<char>, InviteTokenView>,
    pub now: u64,
    pub listing: Seq<InviteTokenView>,
    pub created: Result<Seq<char>, DownstreamFailureView>,
    pub restricted: Result<(), DownstreamFailureView>,
}

pub open spec fn lookup(store: Map<Seq<char>, InviteTokenView>, k: Seq<char>) -> Option<InviteTokenView> {
    if store.contains_key(k) {
        Some(store[k])
    } else {
        None
    }
}

/// The event with which the world answers `eff`.
pub open spec fn answer(w: World, eff: EffectView) -> EventView {
    match eff {
        EffectView::Fetch(k) => EventView::Fetched(Ok(lookup(w.store, k)), w.now),
        EffectView::FetchAll => EventView::FetchedAll(Ok(w.listing)),
        EffectView::Remove(k) => EventView::Removed(Ok(w.store.contains_key(k))),
        EffectView::Save(_) => EventView::Saved,
        EffectView::CreateAccount(_) => EventView::AccountCreated(w.created),
        EffectView::ApplyRestriction(..) => EventView::RestrictionApplied(w.restricted),
        EffectView::Finish(_) => EventView::Saved,
    }
}

/// The store once `eff` has been carried out.
pub open spec fn store_after(
    store: Map<Seq<char>, InviteTokenView>,
    eff: EffectView,
) -> Map<Seq<char>, InviteTokenView> {
    match eff {
        EffectView::Remove(k) => store.remove(k),
        EffectView::Save(r) => store.insert(r.token, r),
        _ => store,
    }
}

/// Runs a session from the effect `eff` until it finishes, taking at most
/// `fuel` answers: the store at the end, and every effect in order.
pub open spec fn run(s: SessionView, eff: EffectView, w: World, fuel: nat) -> (
    Map<Seq<char>, InviteTokenView>,
    Seq<EffectView>,
)
    decreases fuel,
{
    if eff is Finish || fuel == 0 {
        (w.store, seq![eff])
    } else {
        let next = step_spec(s, answer(w, eff));
        let rest = run(next.0, next.1, World { store: store_after(w.store, eff), ..w }, (fuel - 1) as nat);
        (rest.0, seq![eff] + rest.1)
    }
}

/// Operation `op` on `token`, run to its end in the world `w`.
pub open spec fn perform(token: Seq<char>, op: OperationView, w: World) -> (
    Map<Seq<char>, InviteTokenView>,
    Seq<EffectView>,
) {
    let first = start_spec(token, op);
    run(first.0, first.1, w, 8)
}

/// A redemption request that breaks a rule ends at once with the report of
/// the failed rules: the store is neither read nor written, and the server
/// is not called.
pub proof fn lemma_validation_short_circuits(
    token: Seq<char>,
    email: Seq<char>,
    password: Seq<char>,
    w: World,
)
    requires
        !application_valid(email, password),
    ensures
        perform(token, OperationView::Redeem { email, password }, w) == (
            w.store,
            seq![
                EffectView::Finish(
                    Err(InviteErrorView::Validation(validation_report(email, password))),
                ),
            ],
        ),
{
    reveal_with_fuel(run, 2);
}

/// Deleting a token removes its record and reports that it was there, with
/// no regard to the record's deadline.
pub proof fn lemma_delete_is_unconditional(token: Seq<char>, w: World)
    requires
        w.store.contains_key(token),
    ensures
        perform(token, OperationView::Delete, w) == (
            w.store.remove(token),
            seq![EffectView::Remove(token), EffectView::Finish(Ok(ReplyView::Removed(true)))],
        ),
{
    reveal_with_fuel(run, 3);
    assert(seq![EffectView::Remove(token)] + seq![
        EffectView::Finish(Ok(ReplyView::Removed(true))),
    ] =~= seq![EffectView::Remove(token), EffectView::Finish(Ok(ReplyView::Removed(true)))]);
}

/// A lapsed record stays in the listing until its token is next touched. The
/// first inspection then removes it and reports it expired, and an inspection
/// after that finds nothing. A redemption that comes first does the same.
pub proof fn lemma_expiration_is_lazy(
    token: Seq<char>,
    w: World,
    email: Seq<char>,
    password: Seq<char>,
    later: u64,
)
    requires
        keyed_by_token(w.store),
        w.store.contains_key(token),
        w.store[token].option.expired_at(w.now),
        lists(w.store, w.listing),
        application_valid(email, password),
    ensures
        w.listing.contains(w.store[token]),
        perform(token, OperationView::List, w) == (
            w.store,
            seq![EffectView::FetchAll, EffectView::Finish(Ok(ReplyView::Records(w.listing)))],
        ),
        perform(token, OperationView::Inspect, w) == (
            w.store.remove(token),
            seq![
                EffectView::Fetch(token),
                EffectView::Remove(token),
                EffectView::Finish(Err(InviteErrorView::Expired)),
            ],
        ),
        perform(token, OperationView::Redeem { email, password }, w)
            == perform(token, OperationView::Inspect, w),
        perform(token, OperationView::Inspect, World { store: w.store.remove(token), now: later, ..w })
            == (
            w.store.remove(token),
            seq![EffectView::Fetch(token), EffectView::Finish(Err(InviteErrorView::NotFound))],
        ),
{
    reveal_with_fuel(run, 4);
    assert(seq![EffectView::FetchAll] + seq![
        EffectView::Finish(Ok(ReplyView::Records(w.listing))),
    ] =~= seq![EffectView::FetchAll, EffectView::Finish(Ok(ReplyView::Records(w.listing)))]);
    let tail = seq![EffectView::Remove(token)] + seq![EffectView::Finish(Err(InviteErrorView::Expired))];
    assert(seq![EffectView::Fetch(token)] + tail =~= seq![
        EffectView::Fetch(token),
        EffectView::Remove(token),
        EffectView::Finish(Err(InviteErrorView::Expired)),
    ]);
    assert(seq![EffectView::Fetch(token)] + seq![
        EffectView::Finish(Err(InviteErrorView::NotFound)),
    ] =~= seq![EffectView::Fetch(token), EffectView::Finish(Err(InviteErrorView::NotFound))]);
}

/// Resuming a record that already names its account applies the
/// restrictions to that account exactly once and never asks for a new account.
pub proof fn lemma_resume_skips_creation(
    token: Seq<char>,
    email: Seq<char>,
    password: Seq<char>,
    w: World,
    id: Seq<char>,
)
    requires
        application_valid(email, password),
        w.store.contains_key(token),
        w.store[token].user_id == Some(id),
        !w.store[token].option.expired_at(w.now),
    ensures
        ({
            let effects = perform(token, OperationView::Redeem { email, password }, w).1;
            &&& effects[1] == EffectView::ApplyRestriction(id, w.store[token].option.restriction())
            &&& forall|i: int| 0 <= i < effects.len() ==> !(#[trigger] effects[i] is CreateAccount)
            &&& forall|i: int|
                0 <= i < effects.len() && i != 1 ==> !(#[trigger] effects[i] is ApplyRestriction)
        }),
{
    reveal_with_fuel(run, 5);
    let rec = w.store[token];
    let effects = perform(token, OperationView::Redeem { email, password }, w).1;
    if w.restricted is Ok {
        assert(effects =~= seq![
            EffectView::Fetch(token),
            EffectView::ApplyRestriction(id, rec.option.restriction()),
            EffectView::Remove(rec.token),
            EffectView::Finish(Ok(ReplyView::Redeemed)),
        ]);
    } else {
        assert(effects =~= seq![
            EffectView::Fetch(token),
            EffectView::ApplyRestriction(id, rec.option.restriction()),
            EffectView::Finish(Err(failure_error(w.restricted->Err_0))),
        ]);
    }
}

/// When the account is created but its restrictions fail, the record stays
/// under the same token, now naming the new account, and the failure is
/// reported. Inspecting the token afterwards returns that record.
pub proof fn lemma_saga_keeps_created_account(
    token: Seq<char>,
    email: Seq<char>,
    password: Seq<char>,
    w: World,
    id: Seq<char>,
)
    requires
        keyed_by_token(w.store),
        application_valid(email, password),
        w.store.contains_key(token),
        w.store[token].user_id is None,
        !w.store[token].option.expired_at(w.now),
        w.created == Ok::<Seq<char>, DownstreamFailureView>(id),
        w.restricted is Err,
    ensures
        ({
            let (store, effects) = perform(token, OperationView::Redeem { email, password }, w);
            &&& store == w.store.insert(token, w.store[token].with_account(id))
            &&& effects.last() == EffectView::Finish(Err(failure_error(w.restricted->Err_0)))
            &&& perform(token, OperationView::Inspect, World { store, ..w }).1.last()
                == EffectView::Finish(Ok(ReplyView::Record(w.store[token].with_account(id))))
        }),
{
    reveal_with_fuel(run, 6);
    let rec = w.store[token];
    let (store, effects) = perform(token, OperationView::Redeem { email, password }, w);
    assert(rec.with_account(id).token == token);
    assert(effects =~= seq![
        EffectView::Fetch(token),
        EffectView::CreateAccount(
            crate::komga::AccountRequestView { email, password, roles: rec.option.granted_roles() },
        ),
        EffectView::Save(rec.with_account(id)),
        EffectView::ApplyRestriction(id, rec.option.restriction()),
        EffectView::Finish(Err(failure_error(w.restricted->Err_0))),
    ]);
    assert(store.contains_key(token));
}

/// A redemption that completes both steps removes the record, so that
/// inspecting the token afterwards finds nothing.
pub proof fn lemma_full_success_deletes(
    token: Seq<char>,
    email: Seq<char>,
    password: Seq<char>,
    w: World,
    later: u64,
)
    requires
        keyed_by_token(w.store),
        application_valid(email, password),
        w.store.contains_key(token),
        !w.store[token].option.expired_at(w.now),
        w.store[token].user_id is Some || w.created is Ok,
        w.restricted is Ok,
    ensures
        ({
            let (store, effects) = perform(token, OperationView::Redeem { email, password }, w);
            &&& !store.contains_key(token)
            &&& effects.last() == EffectView::Finish(Ok(ReplyView::Redeemed))
            &&& perform(token, OperationView::Inspect, World { store, now: later, ..w }).1 == seq![
                EffectView::Fetch(token),
                EffectView::Finish(Err(InviteErrorView::NotFound)),
            ]
        }),
{
    reveal_with_fuel(run, 6);
    let rec = w.store[token];
    let (store, effects) = perform(token, OperationView::Redeem { email, password }, w);
    if rec.user_id is None {
        let id = w.created->Ok_0;
        assert(rec.with_account(id).token == token);
        assert(effects =~= seq![
            EffectView::Fetch(token),
            EffectView::CreateAccount(
                crate::komga::AccountRequestView { email, password, roles: rec.option.granted_roles() },
            ),
            EffectView::Save(rec.with_account(id)),
            EffectView::ApplyRestriction(id, rec.option.restriction()),
            EffectView::Remove(token),
            EffectView::Finish(Ok(ReplyView::Redeemed)),
        ]);
    } else {
        assert(effects =~= seq![
            EffectView::Fetch(token),
            EffectView::ApplyRestriction(rec.user_id->Some_0, rec.option.restriction()),
            EffectView::Remove(token),
            EffectView::Finish(Ok(ReplyView::Redeemed)),
        ]);
    }
    assert(!store.contains_key(token));
    assert(seq![EffectView::Fetch(token)] + seq![
        EffectView::Finish(Err(InviteErrorView::NotFound)),
    ] =~= seq![EffectView::Fetch(token), EffectView::Finish(Err(InviteErrorView::NotFound))]);
}

/// Every record a session writes names its account: an id, once recorded,
/// is never cleared.
pub proof fn lemma_saves_carry_account(s: SessionView, event: EventView)
    requires
        stage_wf(s.stage),
        accepts(s.stage, event),
    ensures
        step_spec(s, event).1 matches EffectView::Save(r) ==> r.user_id is Some,
        stage_wf(step_spec(s, event).0.stage),
{
}

/// A lapsed record is never used to create or restrict an account: it is
/// removed instead.
pub proof fn lemma_lapsed_record_is_removed(s: SessionView, rec: InviteTokenView, now: u64)
    requires
        s.stage is Fetching,
        rec.option.expired_at(now),
    ensures
        step_spec(s, EventView::Fetched(Ok(Some(rec)), now)) == (
            SessionView { stage: StageView::Purging, ..s },
            EffectView::Remove(rec.token),
        ),
{
}

/// A store call that fails ends the operation at once with a storage error
/// that carries the store's message: a failed read, listing or removal is
/// never taken for a missing record or an empty store.
pub proof fn lemma_store_failures_are_reported(s: SessionView, event: EventView, m: Seq<char>)
    requires
        accepts(s.stage, event),
        event == EventView::Fetched(Err(m), event->Fetched_1) || event == EventView::FetchedAll(
            Err(m),
        ) || event == EventView::Removed(Err(m)),
    ensures
        step_spec(s, event) == (
            SessionView { stage: StageView::Finished, ..s },
            EffectView::Finish(Err(InviteErrorView::Storage(m))),
        ),
{
}

} // verus!
