//! The per-request identity resolver.
//!
//! The resolver is a state machine: its caller performs the session and
//! database round trips and feeds each result back as an event, and the
//! machine answers with the next action to take. A request starts by reading
//! the session; a cached identity resolves it immediately and the database
//! is never consulted. On a miss the claims' subject is looked up; a found
//! row resolves the request, and an absent one leads to a create built from
//! the claims' required fields. A create rejected for a duplicate subject
//! means a concurrent first login won the race, so the lookup is retried
//! once. Every identity resolved without the session's help is handed back
//! with `write_back` set, telling the caller to repopulate the session as a
//! detached, best-effort task.

use vstd::prelude::*;

use crate::claims::Claims;
use crate::claims::ClaimsV;
use crate::claims::PartialUser;
use crate::claims::PartialUserV;
use crate::claims::ResolveError;
use crate::claims::User;
use crate::claims::UserView;
use crate::claims::claims_complete;
use crate::claims::missing_field_error;
use crate::claims::spec_new_user;
use crate::ids::SessionUserId;
use crate::ids::UserId;
use crate::ids::UserIdView;
use crate::ids::spec_parse;

verus! {

/// What the machine waits for, or how it ended.
#[derive(Debug, Clone, Copy, PartialEq, Eq, Structural)]
pub enum ResolverState {
    /// Waiting for the session's stored value.
    AwaitingSession,
    /// Waiting for the first lookup of the claims' subject.
    AwaitingLookup,
    /// Waiting for the create of a first-time user row.
    AwaitingCreate,
    /// Waiting for the one retried lookup after a duplicate-subject create.
    AwaitingRetryLookup,
    /// An identity was handed back; terminal.
    Resolved,
    /// Resolution failed for this request; terminal.
    Failed,
}

/// The machine accepts no further event in a terminal state.
pub open spec fn is_terminal(s: ResolverState) -> bool {
    s is Resolved || s is Failed
}

/// Mathematical model of a resolver: its claims and its state.
#[verifier::ext_equal]
pub struct ResolverV {
    pub claims: ClaimsV,
    pub state: ResolverState,
}

/// The per-request resolver: the claims the identity provider asserted, and
/// where in the resolution the request stands.
pub struct Resolver {
    pub claims: Claims,
    pub state: ResolverState,
}

impl View for Resolver {
    type V = ResolverV;

    open spec fn view(&self) -> ResolverV {
        ResolverV { claims: self.claims@, state: self.state }
    }
}

/// How the store answered a lookup or create round trip that did not yield
/// a row.
#[derive(Debug, Clone, Copy, PartialEq, Eq, Structural)]
pub enum DbFailure {
    /// The store's uniqueness constraint on the subject rejected the insert:
    /// a concurrent first login created the row first.
    DuplicateSubject,
    /// Any other failure of the round trip.
    Other,
}

/// One answer from a collaborator, fed back into the machine.
pub enum Event {
    /// What the session held under the identity key; `None` when absent.
    /// A session read that itself failed is fed as `None` too: the resolver
    /// then falls back to claims-based resolution rather than failing the
    /// request.
    SessionRead(Option<String>),
    /// What a lookup of the claims' subject returned.
    LookupDone(Result<Option<UserId>, DbFailure>),
    /// What the create of a first-time user row returned: the inserted row,
    /// when the store yielded one.
    CreateDone(Result<Option<User>, DbFailure>),
}

/// Mathematical model of an event.
#[verifier::ext_equal]
pub enum EventV {
    SessionRead(Option<Seq<char>>),
    LookupDone(Result<Option<UserIdView>, DbFailure>),
    CreateDone(Result<Option<UserView>, DbFailure>),
}

impl View for Event {
    type V = EventV;

    open spec fn view(&self) -> EventV {
        match self {
            Event::SessionRead(stored) => EventV::SessionRead(
                match stored {
                    Some(s) => Some(s@),
                    None => None,
                },
            ),
            Event::LookupDone(res) => EventV::LookupDone(
                match res {
                    Ok(Some(id)) => Ok(Some(id@)),
                    Ok(None) => Ok(None),
                    Err(e) => Err(*e),
                },
            ),
            Event::CreateDone(res) => EventV::CreateDone(
                match res {
                    Ok(Some(user)) => Ok(Some(user@)),
                    Ok(None) => Ok(None),
                    Err(e) => Err(*e),
                },
            ),
        }
    }
}

/// What the caller must do next.
pub enum Action {
    /// Read the session's stored identity string and feed it back.
    ReadSession,
    /// Look the subject up in the store and feed the row's identifier back.
    LookupSubject(String),
    /// Insert this first-time user row and feed the new identifier back.
    CreateUser(PartialUser),
    /// The request resolved to this identity. With `write_back`, the caller
    /// repopulates the session as a detached best-effort task whose failure
    /// is only logged.
    Finish { id: SessionUserId, write_back: bool },
    /// The request failed; surfaced as an authorization failure.
    Fail(ResolveError),
}

/// Mathematical model of an action.
#[verifier::ext_equal]
pub enum ActionV {
    ReadSession,
    LookupSubject(Seq<char>),
    CreateUser(PartialUserV),
    Finish { id: UserIdView, write_back: bool },
    Fail(ResolveError),
}

impl View for Action {
    type V = ActionV;

    open spec fn view(&self) -> ActionV {
        match self {
            Action::ReadSession => ActionV::ReadSession,
            Action::LookupSubject(s) => ActionV::LookupSubject(s@),
            Action::CreateUser(u) => ActionV::CreateUser(u@),
            Action::Finish { id, write_back } => ActionV::Finish {
                id: id@,
                write_back: *write_back,
            },
            Action::Fail(e) => ActionV::Fail(*e),
        }
    }
}

/// An action that contacts the database.
pub open spec fn is_db_action(a: ActionV) -> bool {
    a is LookupSubject || a is CreateUser
}

/// The event answers what the machine's state is waiting for.
pub open spec fn event_answers_state(s: ResolverState, ev: EventV) -> bool {
    match ev {
        EventV::SessionRead(_) => s is AwaitingSession,
        EventV::LookupDone(_) => s is AwaitingLookup || s is AwaitingRetryLookup,
        EventV::CreateDone(_) => s is AwaitingCreate,
    }
}

/// The machine's transition: from a state and the event answering it, the
/// next state and the action owed to the caller.
pub open spec fn spec_step(m: ResolverV, ev: EventV) -> (ResolverV, ActionV) {
    match ev {
        EventV::SessionRead(stored) => {
            let parsed = match stored {
                Some(s) => spec_parse(s),
                None => None,
            };
            match parsed {
                Some(v) => (
                    ResolverV { claims: m.claims, state: ResolverState::Resolved },
                    ActionV::Finish { id: v, write_back: false },
                ),
                None => (
                    ResolverV { claims: m.claims, state: ResolverState::AwaitingLookup },
                    ActionV::LookupSubject(m.claims.subject),
                ),
            }
        },
        EventV::LookupDone(res) => match res {
            Ok(Some(id)) => (
                ResolverV { claims: m.claims, state: ResolverState::Resolved },
                ActionV::Finish { id, write_back: true },
            ),
            Ok(None) => {
                if m.state is AwaitingRetryLookup {
                    (
                        ResolverV { claims: m.claims, state: ResolverState::Failed },
                        ActionV::Fail(ResolveError::Database),
                    )
                } else if claims_complete(m.claims) {
                    (
                        ResolverV { claims: m.claims, state: ResolverState::AwaitingCreate },
                        ActionV::CreateUser(spec_new_user(m.claims)),
                    )
                } else {
                    (
                        ResolverV { claims: m.claims, state: ResolverState::Failed },
                        ActionV::Fail(missing_field_error(m.claims)),
                    )
                }
            },
            Err(_) => (
                ResolverV { claims: m.claims, state: ResolverState::Failed },
                ActionV::Fail(ResolveError::Database),
            ),
        },
        EventV::CreateDone(res) => match res {
            Ok(Some(user)) => (
                ResolverV { claims: m.claims, state: ResolverState::Resolved },
                ActionV::Finish { id: user.id, write_back: true },
            ),
            Ok(None) => (
                ResolverV { claims: m.claims, state: ResolverState::Failed },
                ActionV::Fail(ResolveError::NoIdentity),
            ),
            Err(DbFailure::DuplicateSubject) => (
                ResolverV { claims: m.claims, state: ResolverState::AwaitingRetryLookup },
                ActionV::LookupSubject(m.claims.subject),
            ),
            Err(DbFailure::Other) => (
                ResolverV { claims: m.claims, state: ResolverState::Failed },
                ActionV::Fail(ResolveError::Database),
            ),
        },
    }
}

impl Resolver {
    /// A fresh resolver for one request's claims; its first action is to
    /// read the session.
    pub fn start(claims: Claims) -> (r: (Resolver, Action))
        ensures
            r.0@.claims == claims@,
            r.0@.state == ResolverState::AwaitingSession,
            r.1@ == ActionV::ReadSession,
    {
        (Resolver { claims, state: ResolverState::AwaitingSession }, Action::ReadSession)
    }

    /// Feeds one collaborator answer into the machine and returns the next
    /// action. The caller performs the round trips; the machine only
    /// decides.
    pub fn step(&mut self, event: Event) -> (a: Action)
        requires
            event_answers_state(old(self).state, event@),
        ensures
            (final(self)@, a@) == spec_step(old(self)@, event@),
    {
        match event {
            Event::SessionRead(stored) => {
                match SessionUserId::from_session(stored) {
                    Some(id) => {
                        self.state = ResolverState::Resolved;
                        Action::Finish { id, write_back: false }
                    },
                    None => {
                        self.state = ResolverState::AwaitingLookup;
                        Action::LookupSubject(self.claims.subject.clone())
                    },
                }
            },
            Event::LookupDone(res) => match res {
                Ok(Some(id)) => {
                    self.state = ResolverState::Resolved;
                    Action::Finish { id: SessionUserId(id), write_back: true }
                },
                Ok(None) => {
                    if self.state == ResolverState::AwaitingRetryLookup {
                        self.state = ResolverState::Failed;
                        Action::Fail(ResolveError::Database)
                    } else {
                        match PartialUser::from_claims(&self.claims) {
                            Ok(user) => {
                                self.state = ResolverState::AwaitingCreate;
                                Action::CreateUser(user)
                            },
                            Err(e) => {
                                self.state = ResolverState::Failed;
                                Action::Fail(e)
                            },
                        }
                    }
                },
                Err(_) => {
                    self.state = ResolverState::Failed;
                    Action::Fail(ResolveError::Database)
                },
            },
            Event::CreateDone(res) => match res {
                Ok(Some(user)) => {
                    self.state = ResolverState::Resolved;
                    Action::Finish { id: SessionUserId(user.id), write_back: true }
                },
                Ok(None) => {
                    self.state = ResolverState::Failed;
                    Action::Fail(ResolveError::NoIdentity)
                },
                Err(DbFailure::DuplicateSubject) => {
                    self.state = ResolverState::AwaitingRetryLookup;
                    Action::LookupSubject(self.claims.subject.clone())
                },
                Err(DbFailure::Other) => {
                    self.state = ResolverState::Failed;
                    Action::Fail(ResolveError::Database)
                },
            },
        }
    }
}

/// A session hit resolves the request at once: the cached identity comes
/// back unchanged and without a write-back, the machine asks for no
/// database lookup or create, and, being terminal, accepts no further event
/// — the database is never contacted on this path.
pub proof fn lemma_session_hit_no_database(m: ResolverV, stored: Seq<char>)
    requires
        m.state is AwaitingSession,
        spec_parse(stored) is Some,
    ensures
        ({
            let (m2, a) = spec_step(m, EventV::SessionRead(Some(stored)));
            &&& a == (ActionV::Finish { id: spec_parse(stored)->Some_0, write_back: false })
            &&& !is_db_action(a)
            &&& is_terminal(m2.state)
            &&& forall|ev: EventV| !event_answers_state(m2.state, ev)
        }),
{
}

/// The database is consulted only after the session was read and held no
/// usable identity: the one step from the waiting-for-session state that
/// asks for a lookup is a session miss, and no step from that state ever
/// asks for a create.
pub proof fn lemma_session_precedes_database(m: ResolverV, ev: EventV)
    requires
        m.state is AwaitingSession,
        event_answers_state(m.state, ev),
    ensures
        !(spec_step(m, ev).1 is CreateUser),
        spec_step(m, ev).1 is LookupSubject ==> (ev matches EventV::SessionRead(stored) && (match stored {
            Some(s) => spec_parse(s) is None,
            None => true,
        })),
{
}

/// Claims missing a required field never create a user row: from the
/// first-lookup state with incomplete claims, no event leads to a create,
/// and the subject-not-found answer fails the request with the exact
/// missing-field error — an authorization failure, with no partial row.
pub proof fn lemma_incomplete_claims_never_create(
    m: ResolverV,
    res: Result<Option<UserIdView>, DbFailure>,
)
    requires
        m.state is AwaitingLookup,
        !claims_complete(m.claims),
    ensures
        ({
            let (m2, a) = spec_step(m, EventV::LookupDone(res));
            &&& !is_db_action(a)
            &&& (res == Ok::<Option<UserIdView>, DbFailure>(None) ==> {
                &&& a == ActionV::Fail(missing_field_error(m.claims))
                &&& m2.state is Failed
            })
        }),
{
}

/// A resolver never hands back an identity of its own making on the claims
/// path: every finish with `write_back` carries an identifier the store
/// returned in the event being folded in.
pub proof fn lemma_finish_comes_from_store(m: ResolverV, ev: EventV)
    requires
        event_answers_state(m.state, ev),
    ensures
        ({
            let (m2, a) = spec_step(m, ev);
            a matches ActionV::Finish { id, write_back: true } ==> (match ev {
                EventV::LookupDone(res) => res == Ok::<Option<UserIdView>, DbFailure>(Some(id)),
                EventV::CreateDone(res) => res matches Ok(Some(user)) && user.id == id,
                EventV::SessionRead(_) => false,
            })
        }),
{
}

/// An identity written into the session comes back as itself: a request
/// whose session holds the encoding of a well-formed identifier resolves at
/// once to that identifier, with no write-back owed.
pub proof fn lemma_cached_identity_round_trips(m: ResolverV, id: UserIdView)
    requires
        m.state is AwaitingSession,
        id.wf(),
    ensures
        spec_step(m, EventV::SessionRead(Some(crate::ids::spec_encode(id)))).1
            == (ActionV::Finish { id, write_back: false }),
        spec_step(m, EventV::SessionRead(Some(crate::ids::spec_encode(id)))).0.state
            is Resolved,
{
    crate::ids::lemma_session_string_round_trip(id);
}

/// Each event of the sequence answers the state the machine is then in.
pub open spec fn valid_trace(m: ResolverV, evs: Seq<EventV>) -> bool
    decreases evs.len(),
{
    evs.len() == 0 || {
        &&& event_answers_state(m.state, evs[0])
        &&& valid_trace(spec_step(m, evs[0]).0, evs.drop_first())
    }
}

/// The actions the machine hands back along a trace of events.
pub open spec fn run_actions(m: ResolverV, evs: Seq<EventV>) -> Seq<ActionV>
    decreases evs.len(),
{
    if evs.len() == 0 {
        Seq::empty()
    } else {
        seq![spec_step(m, evs[0]).1] + run_actions(spec_step(m, evs[0]).0, evs.drop_first())
    }
}

/// How many of the actions ask for an insert.
pub open spec fn count_creates(actions: Seq<ActionV>) -> nat
    decreases actions.len(),
{
    if actions.len() == 0 {
        0
    } else {
        (if actions[0] is CreateUser {
            1nat
        } else {
            0nat
        }) + count_creates(actions.drop_first())
    }
}

/// How many inserts the machine may still ask for from this state on.
pub open spec fn create_budget(s: ResolverState) -> nat {
    match s {
        ResolverState::AwaitingSession => 1,
        ResolverState::AwaitingLookup => 1,
        _ => 0,
    }
}

proof fn lemma_run_creates_bounded(m: ResolverV, evs: Seq<EventV>)
    requires
        valid_trace(m, evs),
    ensures
        count_creates(run_actions(m, evs)) <= create_budget(m.state),
    decreases evs.len(),
{
    if evs.len() > 0 {
        let (m2, a) = spec_step(m, evs[0]);
        lemma_run_creates_bounded(m2, evs.drop_first());
        let acts = run_actions(m, evs);
        assert(acts[0] == a);
        assert(acts.drop_first() =~= run_actions(m2, evs.drop_first()));
        if a is CreateUser {
            assert(m2.state is AwaitingCreate);
        } else {
            assert(create_budget(m2.state) <= create_budget(m.state));
        }
    }
}

/// Over a whole request: a trace that begins with a session hit is that one
/// step and nothing more — the machine is terminal afterwards and accepts no
/// further event — and no action of the request contacts the database.
pub proof fn lemma_session_hit_trace(m: ResolverV, evs: Seq<EventV>)
    requires
        m.state is AwaitingSession,
        valid_trace(m, evs),
        evs.len() > 0,
        evs[0] matches EventV::SessionRead(stored) && (stored matches Some(s) && spec_parse(s)
            is Some),
    ensures
        evs.len() == 1,
        forall|i: int| 0 <= i < run_actions(m, evs).len() ==> !is_db_action(run_actions(m, evs)[i]),
{
    let (m2, a) = spec_step(m, evs[0]);
    let rest = evs.drop_first();
    assert(m2.state is Resolved);
    assert(valid_trace(m2, rest));
    if evs.len() > 1 {
        assert(rest.len() > 0);
        assert(event_answers_state(m2.state, rest[0]));
        assert(false);
    }
    assert(run_actions(m2, rest) =~= Seq::empty());
    assert(run_actions(m, evs) =~= seq![a]);
}

/// One request inserts at most once: however the collaborators answer, a
/// resolver started fresh asks for at most one create over its whole run.
/// Since that one insert goes through the store's insert-if-absent, this and
/// the store model together bound concurrent first logins for a subject to
/// the single row the store admits.
pub proof fn lemma_request_creates_at_most_once(m: ResolverV, evs: Seq<EventV>)
    requires
        m.state is AwaitingSession,
        valid_trace(m, evs),
    ensures
        count_creates(run_actions(m, evs)) <= 1,
{
    lemma_run_creates_bounded(m, evs);
}

} // verus!
