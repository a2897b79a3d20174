//! The invite lifecycle as a state machine. A `Session` carries out one
//! operation on one token (inspect, list, delete or redeem); each step takes
//! what the store or the server answered and says what to do next. The caller
//! performs each `Effect` and hands back the matching `Event`.
//!
//! Redemption is a two-step saga: create the account, record its id in the
//! store, then apply the restrictions and delete the record. A record that
//! already carries an id skips the creation, so a retry never makes a second
//! account.

use vstd::prelude::*;

use crate::invite::{
    application_valid, validation_report, InviteToken, InviteTokenApplicationRequest,
    InviteTokenView, ProvisionState,
};
use crate::komga::{AccountRequestView, KomgaUserCreate, KomgaUserCreateOption, RestrictionView};

verus! {

/// Why a call to the server failed.
pub enum DownstreamFailure {
    /// The server refused the request; holds its message.
    Rejected(String),
    /// The server could not be reached, or its answer could not be read.
    Unreachable,
}

pub ghost enum DownstreamFailureView {
    Rejected(Seq<char>),
    Unreachable,
}

impl View for DownstreamFailure {
    type V = DownstreamFailureView;

    open spec fn view(&self) -> DownstreamFailureView {
        match self {
            DownstreamFailure::Rejected(m) => DownstreamFailureView::Rejected(m@),
            DownstreamFailure::Unreachable => DownstreamFailureView::Unreachable,
        }
    }
}

/// Why an operation on an invitation failed.
pub enum InviteError {
    /// The redemption request broke a rule; holds the report of the failed rules.
    Validation(String),
    /// No record exists under the token.
    NotFound,
    /// The record's deadline has passed; it has been removed.
    Expired,
    /// The server refused to provision the account; holds its message.
    DownstreamRejected(String),
    /// The server could not be reached, or its answer could not be read.
    DownstreamUnreachable,
    /// The store failed; holds its message.
    Storage(String),
    /// The store did not take a newly issued record; holds its message.
    IssueFailed(String),
}

pub ghost enum InviteErrorView {
    Validation(Seq<char>),
    NotFound,
    Expired,
    DownstreamRejected(Seq<char>),
    DownstreamUnreachable,
    Storage(Seq<char>),
    IssueFailed(Seq<char>),
}

impl View for InviteError {
    type V = InviteErrorView;

    open spec fn view(&self) -> InviteErrorView {
        match self {
            InviteError::Validation(r) => InviteErrorView::Validation(r@),
            InviteError::NotFound => InviteErrorView::NotFound,
            InviteError::Expired => InviteErrorView::Expired,
            InviteError::DownstreamRejected(m) => InviteErrorView::DownstreamRejected(m@),
            InviteError::DownstreamUnreachable => InviteErrorView::DownstreamUnreachable,
            InviteError::Storage(m) => InviteErrorView::Storage(m@),
            InviteError::IssueFailed(m) => InviteErrorView::IssueFailed(m@),
        }
    }
}

/// The error that a failed server call ends a redemption with.
pub open spec fn failure_error(f: DownstreamFailureView) -> InviteErrorView {
    match f {
        DownstreamFailureView::Rejected(m) => InviteErrorView::DownstreamRejected(m),
        DownstreamFailureView::Unreachable => InviteErrorView::DownstreamUnreachable,
    }
}

impl InviteErrorView {
    /// The text reported to the caller.
    pub open spec fn message(self) -> Seq<char> {
        match self {
            InviteErrorView::Validation(r) => "Invalid request:\n"@ + r,
            InviteErrorView::NotFound => "Invite token not found"@,
            InviteErrorView::Expired => "Invite token expired"@,
            InviteErrorView::DownstreamRejected(m) => "Failed to create user: "@ + m,
            InviteErrorView::DownstreamUnreachable => "Failed to create user: Komga could not be reached"@,
            InviteErrorView::Storage(m) => "Invite store failure: "@ + m,
            InviteErrorView::IssueFailed(m) => "Failed to create invite token: "@ + m,
        }
    }
}

impl InviteError {
    /// The text reported to the caller.
    pub fn message(&self) -> (r: String)
        ensures
            r@ == self@.message(),
    {
        match self {
            InviteError::Validation(report) => {
                let mut r = String::from_str("Invalid request:\n");
                r.append(report.as_str());
                r
            },
            InviteError::NotFound => String::from_str("Invite token not found"),
            InviteError::Expired => String::from_str("Invite token expired"),
            InviteError::DownstreamRejected(m) => {
                let mut r = String::from_str("Failed to create user: ");
                r.append(m.as_str());
                r
            },
            InviteError::DownstreamUnreachable => String::from_str(
                "Failed to create user: Komga could not be reached",
            ),
            InviteError::Storage(m) => {
                let mut r = String::from_str("Invite store failure: ");
                r.append(m.as_str());
                r
            },
            InviteError::IssueFailed(m) => {
                let mut r = String::from_str("Failed to create invite token: ");
                r.append(m.as_str());
                r
            },
        }
    }

    /// The error that a failed server call ends a redemption with.
    pub fn from_failure(f: DownstreamFailure) -> (r: InviteError)
        ensures
            r@ == failure_error(f@),
    {
        match f {
            DownstreamFailure::Rejected(m) => InviteError::DownstreamRejected(m),
            DownstreamFailure::Unreachable => InviteError::DownstreamUnreachable,
        }
    }
}

/// What an operation hands back when it succeeds.
pub enum Reply {
    /// The record asked for (inspection).
    Record(InviteToken),
    /// Every record in the store (listing).
    Records(Vec<InviteToken>),
    /// Whether a record was there to delete (deletion).
    Removed(bool),
    /// The account exists with its restrictions, and the record is gone (redemption).
    Redeemed,
}

pub ghost enum ReplyView {
    Record(InviteTokenView),
    Records(Seq<InviteTokenView>),
    Removed(bool),
    Redeemed,
}

pub open spec fn records_view(v: Seq<InviteToken>) -> Seq<InviteTokenView> {
    v.map_values(|r: InviteToken| r@)
}

impl View for Reply {
    type V = ReplyView;

    open spec fn view(&self) -> ReplyView {
        match self {
            Reply::Record(r) => ReplyView::Record(r@),
            Reply::Records(v) => ReplyView::Records(records_view(v@)),
            Reply::Removed(b) => ReplyView::Removed(*b),
            Reply::Redeemed => ReplyView::Redeemed,
        }
    }
}

pub open spec fn outcome_view(o: Result<Reply, InviteError>) -> Result<ReplyView, InviteErrorView> {
    match o {
        Ok(r) => Ok(r@),
        Err(e) => Err(e@),
    }
}

/// The operation a session carries out.
pub enum Operation {
    Inspect,
    List,
    Delete,
    Redeem(InviteTokenApplicationRequest),
}

pub ghost enum OperationView {
    Inspect,
    List,
    Delete,
    Redeem { email: Seq<char>, password: Seq<char> },
}

impl View for Operation {
    type V = OperationView;

    open spec fn view(&self) -> OperationView {
        match self {
            Operation::Inspect => OperationView::Inspect,
            Operation::List => OperationView::List,
            Operation::Delete => OperationView::Delete,
            Operation::Redeem(req) => OperationView::Redeem {
                email: req.email@,
                password: req.password@,
            },
        }
    }
}

/// Where a session stands: which answer it waits for.
pub enum Stage {
    /// Waiting for the record under the token.
    Fetching,
    /// Waiting for every record.
    Listing,
    /// Waiting for a lapsed record to be removed.
    Purging,
    /// Waiting for the server to create the account for this pending record.
    Creating(InviteToken),
    /// Waiting for the store to take this record, which now carries the account id.
    Saving(InviteToken),
    /// Waiting for the server to restrict the account of this record.
    Restricting(InviteToken),
    /// Waiting for the redeemed record to be removed.
    Completing,
    /// Waiting for an explicit deletion.
    Removing,
    /// Done; no answer is expected.
    Finished,
}

pub ghost enum StageView {
    Fetching,
    Listing,
    Purging,
    Creating(InviteTokenView),
    Saving(InviteTokenView),
    Restricting(InviteTokenView),
    Completing,
    Removing,
    Finished,
}

impl View for Stage {
    type V = StageView;

    open spec fn view(&self) -> StageView {
        match self {
            Stage::Fetching => StageView::Fetching,
            Stage::Listing => StageView::Listing,
            Stage::Purging => StageView::Purging,
            Stage::Creating(r) => StageView::Creating(r@),
            Stage::Saving(r) => StageView::Saving(r@),
            Stage::Restricting(r) => StageView::Restricting(r@),
            Stage::Completing => StageView::Completing,
            Stage::Removing => StageView::Removing,
            Stage::Finished => StageView::Finished,
        }
    }
}

/// An answer from the store or the server. A failed store call carries the
/// store's message.
pub enum Event {
    /// The record under the token, if any, and the Unix time it was read at.
    Fetched(Result<Option<InviteToken>, String>, u64),
    /// Every record in the store.
    FetchedAll(Result<Vec<InviteToken>, String>),
    /// A removal ran; whether a record was there.
    Removed(Result<bool, String>),
    /// A write of a record ran. Its failure is not reported: it costs at most a
    /// second account on a later retry.
    Saved,
    /// The account was created with this id, or the call failed.
    AccountCreated(Result<String, DownstreamFailure>),
    /// The restrictions were applied, or the call failed.
    RestrictionApplied(Result<(), DownstreamFailure>),
}

pub ghost enum EventView {
    Fetched(Result<Option<InviteTokenView>, Seq<char>>, u64),
    FetchedAll(Result<Seq<InviteTokenView>, Seq<char>>),
    Removed(Result<bool, Seq<char>>),
    Saved,
    AccountCreated(Result<Seq<char>, DownstreamFailureView>),
    RestrictionApplied(Result<(), DownstreamFailureView>),
}

impl View for Event {
    type V = EventView;

    open spec fn view(&self) -> EventView {
        match self {
            Event::Fetched(found, now) => EventView::Fetched(
                match found {
                    Ok(Some(r)) => Ok(Some(r@)),
                    Ok(None) => Ok(None),
                    Err(m) => Err(m@),
                },
                *now,
            ),
            Event::FetchedAll(all) => EventView::FetchedAll(
                match all {
                    Ok(v) => Ok(records_view(v@)),
                    Err(m) => Err(m@),
                },
            ),
            Event::Removed(res) => EventView::Removed(
                match res {
                    Ok(b) => Ok(*b),
                    Err(m) => Err(m@),
                },
            ),
            Event::Saved => EventView::Saved,
            Event::AccountCreated(res) => EventView::AccountCreated(
                match res {
                    Ok(id) => Ok(id@),
                    Err(f) => Err(f@),
                },
            ),
            Event::RestrictionApplied(res) => EventView::RestrictionApplied(
                match res {
                    Ok(()) => Ok(()),
                    Err(f) => Err(f@),
                },
            ),
        }
    }
}

/// What the caller is to do next.
pub enum Effect {
    /// Read the record stored under this token.
    Fetch(String),
    /// Read every record.
    FetchAll,
    /// Remove the record stored under this token.
    Remove(String),
    /// Store this record under its token.
    Save(InviteToken),
    /// Ask the server to create this account.
    CreateAccount(KomgaUserCreate),
    /// Ask the server to apply these restrictions to the account with this id.
    ApplyRestriction(String, KomgaUserCreateOption),
    /// The operation is over, with this outcome.
    Finish(Result<Reply, InviteError>),
}

pub ghost enum EffectView {
    Fetch(Seq<char>),
    FetchAll,
    Remove(Seq<char>),
    Save(InviteTokenView),
    CreateAccount(AccountRequestView),
    ApplyRestriction(Seq<char>, RestrictionView),
    Finish(Result<ReplyView, InviteErrorView>),
}

impl View for Effect {
    type V = EffectView;

    open spec fn view(&self) -> EffectView {
        match self {
            Effect::Fetch(t) => EffectView::Fetch(t@),
            Effect::FetchAll => EffectView::FetchAll,
            Effect::Remove(t) => EffectView::Remove(t@),
            Effect::Save(r) => EffectView::Save(r@),
            Effect::CreateAccount(c) => EffectView::CreateAccount(c@),
            Effect::ApplyRestriction(id, o) => EffectView::ApplyRestriction(id@, o@),
            Effect::Finish(o) => EffectView::Finish(outcome_view(*o)),
        }
    }
}

/// One operation on one token, in progress.
pub struct Session {
    pub token: String,
    pub operation: Operation,
    pub stage: Stage,
}

pub ghost struct SessionView {
    pub token: Seq<char>,
    pub operation: OperationView,
    pub stage: StageView,
}

impl View for Session {
    type V = SessionView;

    open spec fn view(&self) -> SessionView {
        SessionView { token: self.token@, operation: self.operation@, stage: self.stage@ }
    }
}

/// The records that wait for the restriction step carry their account id.
pub open spec fn stage_wf(stage: StageView) -> bool {
    match stage {
        StageView::Saving(r) => r.user_id is Some,
        StageView::Restricting(r) => r.user_id is Some,
        _ => true,
    }
}

/// Whether a session at `stage` can take `event`.
pub open spec fn accepts(stage: StageView, event: EventView) -> bool {
    match stage {
        StageView::Fetching => event is Fetched,
        StageView::Listing => event is FetchedAll,
        StageView::Purging => event is Removed,
        StageView::Creating(_) => event is AccountCreated,
        StageView::Saving(_) => event is Saved,
        StageView::Restricting(_) => event is RestrictionApplied,
        StageView::Completing => event is Removed,
        StageView::Removing => event is Removed,
        StageView::Finished => false,
    }
}

/// The first stage and effect of an operation on `token`. A redemption
/// request that breaks a rule ends at once, before any store or server work.
pub open spec fn start_spec(token: Seq<char>, op: OperationView) -> (SessionView, EffectView) {
    let at = |stage: StageView| SessionView { token, operation: op, stage };
    match op {
        OperationView::Inspect => (at(StageView::Fetching), EffectView::Fetch(token)),
        OperationView::List => (at(StageView::Listing), EffectView::FetchAll),
        OperationView::Delete => (at(StageView::Removing), EffectView::Remove(token)),
        OperationView::Redeem { email, password } => if application_valid(email, password) {
            (at(StageView::Fetching), EffectView::Fetch(token))
        } else {
            (
                at(StageView::Finished),
                EffectView::Finish(
                    Err(InviteErrorView::Validation(validation_report(email, password))),
                ),
            )
        },
    }
}

/// What a session does with a record that was found and has not lapsed.
pub open spec fn on_live_record(s: SessionView, rec: InviteTokenView) -> (SessionView, EffectView) {
    let at = |stage: StageView| SessionView { stage, ..s };
    match s.operation {
        OperationView::Redeem { email, password } => match rec.user_id {
            Some(id) => (
                at(StageView::Restricting(rec)),
                EffectView::ApplyRestriction(id, rec.option.restriction()),
            ),
            None => (
                at(StageView::Creating(rec)),
                EffectView::CreateAccount(
                    AccountRequestView { email, password, roles: rec.option.granted_roles() },
                ),
            ),
        },
        _ => (at(StageView::Finished), EffectView::Finish(Ok(ReplyView::Record(rec)))),
    }
}

/// The next stage and effect after `event`.
pub open spec fn step_spec(s: SessionView, event: EventView) -> (SessionView, EffectView) {
    let at = |stage: StageView| SessionView { stage, ..s };
    let finish = |o: Result<ReplyView, InviteErrorView>| (
        at(StageView::Finished),
        EffectView::Finish(o),
    );
    let store_failed = |m: Seq<char>| finish(Err(InviteErrorView::Storage(m)));
    match (s.stage, event) {
        (StageView::Fetching, EventView::Fetched(Err(m), _)) => store_failed(m),
        (StageView::Fetching, EventView::Fetched(Ok(None), _)) => finish(
            Err(InviteErrorView::NotFound),
        ),
        (StageView::Fetching, EventView::Fetched(Ok(Some(rec)), now)) => if rec.option.expired_at(
            now,
        ) {
            (at(StageView::Purging), EffectView::Remove(rec.token))
        } else {
            on_live_record(s, rec)
        },
        (StageView::Listing, EventView::FetchedAll(Ok(all))) => finish(Ok(ReplyView::Records(all))),
        (StageView::Listing, EventView::FetchedAll(Err(m))) => store_failed(m),
        (StageView::Purging, EventView::Removed(Ok(_))) => finish(Err(InviteErrorView::Expired)),
        (StageView::Purging, EventView::Removed(Err(m))) => store_failed(m),
        (StageView::Creating(rec), EventView::AccountCreated(Ok(id))) => (
            at(StageView::Saving(rec.with_account(id))),
            EffectView::Save(rec.with_account(id)),
        ),
        (StageView::Creating(_), EventView::AccountCreated(Err(f))) => finish(Err(failure_error(f))),
        (StageView::Saving(rec), EventView::Saved) => (
            at(StageView::Restricting(rec)),
            EffectView::ApplyRestriction(rec.user_id->Some_0, rec.option.restriction()),
        ),
        (StageView::Restricting(rec), EventView::RestrictionApplied(Ok(()))) => (
            at(StageView::Completing),
            EffectView::Remove(rec.token),
        ),
        (StageView::Restricting(_), EventView::RestrictionApplied(Err(f))) => finish(
            Err(failure_error(f)),
        ),
        (StageView::Completing, EventView::Removed(Ok(_))) => finish(Ok(ReplyView::Redeemed)),
        (StageView::Completing, EventView::Removed(Err(m))) => store_failed(m),
        (StageView::Removing, EventView::Removed(Ok(b))) => finish(Ok(ReplyView::Removed(b))),
        (StageView::Removing, EventView::Removed(Err(m))) => store_failed(m),
        // Not reached: `step` takes only the events that the stage accepts.
        _ => (s, EffectView::FetchAll),
    }
}

impl Session {
    pub open spec fn wf(&self) -> bool {
        stage_wf(self@.stage)
    }

    /// Begins `operation` on `token`.
    pub fn start(token: String, operation: Operation) -> (r: (Session, Effect))
        ensures
            (r.0@, r.1@) == start_spec(token@, operation@),
            r.0.wf(),
    {
        match operation {
            Operation::Inspect => {
                let t = token.clone();
                (Session { token, operation, stage: Stage::Fetching }, Effect::Fetch(t))
            },
            Operation::List => (Session { token, operation, stage: Stage::Listing }, Effect::FetchAll),
            Operation::Delete => {
                let t = token.clone();
                (Session { token, operation, stage: Stage::Removing }, Effect::Remove(t))
            },
            Operation::Redeem(req) => match req.validate() {
                Ok(()) => {
                    let t = token.clone();
                    (
                        Session { token, operation: Operation::Redeem(req), stage: Stage::Fetching },
                        Effect::Fetch(t),
                    )
                },
                Err(report) => (
                    Session { token, operation: Operation::Redeem(req), stage: Stage::Finished },
                    Effect::Finish(Err(InviteError::Validation(report))),
                ),
            },
        }
    }

    /// Whether the session can take `event` now.
    pub fn accepts(&self, event: &Event) -> (r: bool)
        ensures
            r == accepts(self@.stage, event@),
    {
        match (&self.stage, event) {
            (Stage::Fetching, Event::Fetched(..)) => true,
            (Stage::Listing, Event::FetchedAll(..)) => true,
            (Stage::Purging, Event::Removed(..)) => true,
            (Stage::Creating(..), Event::AccountCreated(..)) => true,
            (Stage::Saving(..), Event::Saved) => true,
            (Stage::Restricting(..), Event::RestrictionApplied(..)) => true,
            (Stage::Completing, Event::Removed(..)) => true,
            (Stage::Removing, Event::Removed(..)) => true,
            _ => false,
        }
    }

    /// Whether the operation is over.
    pub fn is_finished(&self) -> (r: bool)
        ensures
            r == (self@.stage is Finished),
    {
        match self.stage {
            Stage::Finished => true,
            _ => false,
        }
    }

    /// The token the session works on.
    pub fn token(&self) -> (r: &str)
        ensures
            r@ == self@.token,
    {
        self.token.as_str()
    }

    fn at(token: String, operation: Operation, stage: Stage) -> (r: Session)
        ensures
            r@ == (SessionView { token: token@, operation: operation@, stage: stage@ }),
    {
        Session { token, operation, stage }
    }

    fn finished(token: String, operation: Operation, outcome: Result<Reply, InviteError>) -> (r: (
        Session,
        Effect,
    ))
        ensures
            r.0@ == (SessionView { token: token@, operation: operation@, stage: StageView::Finished }),
            r.1@ == EffectView::Finish(outcome_view(outcome)),
    {
        (Session { token, operation, stage: Stage::Finished }, Effect::Finish(outcome))
    }

    /// Takes `event`, which answers the last effect, and gives the next effect.
    pub fn step(self, event: Event) -> (r: (Session, Effect))
        requires
            self.wf(),
            accepts(self@.stage, event@),
        ensures
            (r.0@, r.1@) == step_spec(self@, event@),
            r.0.wf(),
    {
        let Session { token, operation, stage } = self;
        match stage {
            Stage::Fetching => match event {
                Event::Fetched(Err(m), _) => Self::finished(token, operation, Err(InviteError::Storage(m))),
                Event::Fetched(Ok(None), _) => Self::finished(token, operation, Err(InviteError::NotFound)),
                Event::Fetched(Ok(Some(rec)), now) => {
                    if rec.is_expired(now) {
                        let t = rec.token.clone();
                        (Self::at(token, operation, Stage::Purging), Effect::Remove(t))
                    } else {
                        match operation {
                            Operation::Redeem(req) => match rec.provision_state() {
                                ProvisionState::PartiallyProvisioned(id) => {
                                    let restriction = rec.option.restriction();
                                    (
                                        Self::at(token, Operation::Redeem(req), Stage::Restricting(rec)),
                                        Effect::ApplyRestriction(id, restriction),
                                    )
                                },
                                ProvisionState::Pending => {
                                    let create = KomgaUserCreate {
                                        email: req.email.clone(),
                                        password: req.password.clone(),
                                        roles: rec.option.granted_roles(),
                                    };
                                    (
                                        Self::at(token, Operation::Redeem(req), Stage::Creating(rec)),
                                        Effect::CreateAccount(create),
                                    )
                                },
                            },
                            _ => Self::finished(token, operation, Ok(Reply::Record(rec))),
                        }
                    }
                },
                _ => vstd::pervasive::unreached(),
            },
            Stage::Listing => match event {
                Event::FetchedAll(Ok(all)) => Self::finished(token, operation, Ok(Reply::Records(all))),
                Event::FetchedAll(Err(m)) => Self::finished(token, operation, Err(InviteError::Storage(m))),
                _ => vstd::pervasive::unreached(),
            },
            Stage::Purging => match event {
                Event::Removed(Ok(_)) => Self::finished(token, operation, Err(InviteError::Expired)),
                Event::Removed(Err(m)) => Self::finished(token, operation, Err(InviteError::Storage(m))),
                _ => vstd::pervasive::unreached(),
            },
            Stage::Creating(rec) => match event {
                Event::AccountCreated(Ok(id)) => {
                    let updated = rec.with_account(id);
                    let saved = updated.duplicate();
                    (Self::at(token, operation, Stage::Saving(updated)), Effect::Save(saved))
                },
                Event::AccountCreated(Err(f)) => Self::finished(
                    token,
                    operation,
                    Err(InviteError::from_failure(f)),
                ),
                _ => vstd::pervasive::unreached(),
            },
            Stage::Saving(rec) => {
                let id = match &rec.user_id {
                    Some(id) => id.clone(),
                    None => vstd::pervasive::unreached(),
                };
                let restriction = rec.option.restriction();
                (
                    Self::at(token, operation, Stage::Restricting(rec)),
                    Effect::ApplyRestriction(id, restriction),
                )
            },
            Stage::Restricting(rec) => match event {
                Event::RestrictionApplied(Ok(())) => {
                    let t = rec.token.clone();
                    (Self::at(token, operation, Stage::Completing), Effect::Remove(t))
                },
                Event::RestrictionApplied(Err(f)) => Self::finished(
                    token,
                    operation,
                    Err(InviteError::from_failure(f)),
                ),
                _ => vstd::pervasive::unreached(),
            },
            Stage::Completing => match event {
                Event::Removed(Ok(_)) => Self::finished(token, operation, Ok(Reply::Redeemed)),
                Event::Removed(Err(m)) => Self::finished(token, operation, Err(InviteError::Storage(m))),
                _ => vstd::pervasive::unreached(),
            },
            Stage::Removing => match event {
                Event::Removed(Ok(b)) => Self::finished(token, operation, Ok(Reply::Removed(b))),
                Event::Removed(Err(m)) => Self::finished(token, operation, Err(InviteError::Storage(m))),
                _ => vstd::pervasive::unreached(),
            },
            Stage::Finished => vstd::pervasive::unreached(),
        }
    }
}

} // verus!
