//! The credential cascade run once at startup.
//!
//! Operators may provision the store credential at any of three trust
//! levels. The cascade tries a database-scoped sign-in first, then a
//! namespace-scoped one, then a root-scoped one, moving on only when the
//! store rejected the attempt as an authentication failure; the first
//! success ends the cascade, and any other class of failure aborts it at
//! once. The sign-in calls themselves are the caller's: the cascade only
//! decides, from each attempt's outcome, what to do next.
//!
//! The store reports an authentication failure only through the wording of
//! its error message, so that fragile comparison is isolated here in a
//! single named predicate.

use vstd::prelude::*;

verus! {

/// A credential scope the cascade may sign in under.
#[derive(Debug, Clone, Copy, PartialEq, Eq, Structural)]
pub enum Scope {
    /// Namespace, database, username and password.
    Database,
    /// Namespace, username and password.
    Namespace,
    /// Username and password only.
    Root,
}

/// How the store answered one sign-in attempt, with the store's errors
/// already classified by [`classify_failure_message`].
#[derive(Debug, Clone, Copy, PartialEq, Eq, Structural)]
pub enum SignInOutcome {
    /// The scope signed in.
    Success,
    /// The store rejected the credential as an authentication failure: the
    /// signal to try the next scope.
    AuthFailure,
    /// Any other failure: fatal for startup.
    Fatal,
}

/// How the cascade ended.
#[derive(Debug, Clone, Copy, PartialEq, Eq, Structural)]
pub enum CascadeResult {
    /// The named scope signed in; the connection is bound under it.
    Connected(Scope),
    /// Every scope was rejected as an authentication failure.
    AllScopesRejected,
    /// The named scope failed with something other than an authentication
    /// failure; startup aborts without trying further scopes.
    FatalError(Scope),
}

/// What the caller must do next: attempt a sign-in under a scope, or stop.
#[derive(Debug, Clone, Copy, PartialEq, Eq, Structural)]
pub enum CascadeAction {
    /// Attempt a sign-in under this scope and report its outcome.
    TrySignIn(Scope),
    /// The cascade is over.
    Done(CascadeResult),
}

/// The literal wording with which the store reports an authentication
/// failure.
pub open spec fn auth_failure_text() -> Seq<char> {
    "There was a problem with the database: There was a problem with authentication"@
}

/// The single place that recognises the store's authentication-failure
/// wording.
pub fn is_auth_failure_message(msg: &str) -> (b: bool)
    ensures
        b == (msg@ == auth_failure_text()),
{
    let pattern: &str =
        "There was a problem with the database: There was a problem with authentication";
    let plen = pattern.unicode_len();
    let mlen = msg.unicode_len();
    if mlen != plen {
        proof {
            assert(msg@ != auth_failure_text()) by {
                if msg@ == auth_failure_text() {
                    assert(msg@.len() == pattern@.len());
                }
            }
        }
        return false;
    }
    let mut i: usize = 0;
    while i < plen
        invariant
            i <= plen,
            plen == pattern@.len(),
            mlen == plen,
            mlen == msg@.len(),
            pattern@ == auth_failure_text(),
            forall|j: int| 0 <= j < i ==> msg@[j] == pattern@[j],
        decreases plen - i,
    {
        if msg.get_char(i) != pattern.get_char(i) {
            proof {
                assert(msg@ != auth_failure_text()) by {
                    if msg@ == auth_failure_text() {
                        assert(msg@[i as int] == pattern@[i as int]);
                    }
                }
            }
            return false;
        }
        i += 1;
    }
    proof {
        assert(msg@ =~= auth_failure_text());
    }
    true
}

/// Classifies a failed sign-in by the store's error message: the
/// authentication-failure wording means "try the next scope", anything else
/// is fatal.
pub fn classify_failure_message(msg: &str) -> (o: SignInOutcome)
    ensures
        o == (if msg@ == auth_failure_text() {
            SignInOutcome::AuthFailure
        } else {
            SignInOutcome::Fatal
        }),
{
    if is_auth_failure_message(msg) {
        SignInOutcome::AuthFailure
    } else {
        SignInOutcome::Fatal
    }
}

/// What the cascade does after one attempt: stop on success, stop on a
/// non-authentication failure, otherwise move to the strictly next scope.
pub open spec fn spec_cascade_next(scope: Scope, outcome: SignInOutcome) -> CascadeAction {
    match outcome {
        SignInOutcome::Success => CascadeAction::Done(CascadeResult::Connected(scope)),
        SignInOutcome::Fatal => CascadeAction::Done(CascadeResult::FatalError(scope)),
        SignInOutcome::AuthFailure => match scope {
            Scope::Database => CascadeAction::TrySignIn(Scope::Namespace),
            Scope::Namespace => CascadeAction::TrySignIn(Scope::Root),
            Scope::Root => CascadeAction::Done(CascadeResult::AllScopesRejected),
        },
    }
}

/// The cascade's first step: a database-scoped attempt.
pub fn cascade_start() -> (a: CascadeAction)
    ensures
        a == CascadeAction::TrySignIn(Scope::Database),
{
    CascadeAction::TrySignIn(Scope::Database)
}

/// Folds one attempt's outcome into the cascade.
pub fn cascade_next(scope: Scope, outcome: SignInOutcome) -> (a: CascadeAction)
    ensures
        a == spec_cascade_next(scope, outcome),
{
    match outcome {
        SignInOutcome::Success => CascadeAction::Done(CascadeResult::Connected(scope)),
        SignInOutcome::Fatal => CascadeAction::Done(CascadeResult::FatalError(scope)),
        SignInOutcome::AuthFailure => match scope {
            Scope::Database => CascadeAction::TrySignIn(Scope::Namespace),
            Scope::Namespace => CascadeAction::TrySignIn(Scope::Root),
            Scope::Root => CascadeAction::Done(CascadeResult::AllScopesRejected),
        },
    }
}

/// The outcome each scope would report if attempted.
pub open spec fn spec_scope_outcome(
    db: SignInOutcome,
    ns: SignInOutcome,
    root: SignInOutcome,
    s: Scope,
) -> SignInOutcome {
    match s {
        Scope::Database => db,
        Scope::Namespace => ns,
        Scope::Root => root,
    }
}

/// The scopes the cascade attempts, given what each scope would report.
pub open spec fn spec_cascade_attempts(
    db: SignInOutcome,
    ns: SignInOutcome,
    root: SignInOutcome,
) -> Seq<Scope> {
    if db != SignInOutcome::AuthFailure {
        seq![Scope::Database]
    } else if ns != SignInOutcome::AuthFailure {
        seq![Scope::Database, Scope::Namespace]
    } else {
        seq![Scope::Database, Scope::Namespace, Scope::Root]
    }
}

/// How the cascade ends, given what each scope would report.
pub open spec fn spec_cascade_result(
    db: SignInOutcome,
    ns: SignInOutcome,
    root: SignInOutcome,
) -> CascadeResult {
    match db {
        SignInOutcome::Success => CascadeResult::Connected(Scope::Database),
        SignInOutcome::Fatal => CascadeResult::FatalError(Scope::Database),
        SignInOutcome::AuthFailure => match ns {
            SignInOutcome::Success => CascadeResult::Connected(Scope::Namespace),
            SignInOutcome::Fatal => CascadeResult::FatalError(Scope::Namespace),
            SignInOutcome::AuthFailure => match root {
                SignInOutcome::Success => CascadeResult::Connected(Scope::Root),
                SignInOutcome::Fatal => CascadeResult::FatalError(Scope::Root),
                SignInOutcome::AuthFailure => CascadeResult::AllScopesRejected,
            },
        },
    }
}

/// Runs the whole cascade against the outcome each scope would report,
/// returning the scopes attempted, in order, and how it ended. The sign-in
/// calls themselves stay with the caller; this is the cascade's decision
/// logic composed end to end.
pub fn run_cascade(db: SignInOutcome, ns: SignInOutcome, root: SignInOutcome) -> (r: (
    Vec<Scope>,
    CascadeResult,
))
    ensures
        r.0@ == spec_cascade_attempts(db, ns, root),
        r.1 == spec_cascade_result(db, ns, root),
{
    let mut attempts: Vec<Scope> = Vec::new();
    attempts.push(Scope::Database);
    match cascade_next(Scope::Database, db) {
        CascadeAction::Done(res) => {
            proof {
                assert(attempts@ =~= spec_cascade_attempts(db, ns, root));
            }
            return (attempts, res);
        },
        CascadeAction::TrySignIn(_) => {},
    }
    attempts.push(Scope::Namespace);
    match cascade_next(Scope::Namespace, ns) {
        CascadeAction::Done(res) => {
            proof {
                assert(attempts@ =~= spec_cascade_attempts(db, ns, root));
            }
            return (attempts, res);
        },
        CascadeAction::TrySignIn(_) => {},
    }
    attempts.push(Scope::Root);
    match cascade_next(Scope::Root, root) {
        CascadeAction::Done(res) => {
            proof {
                assert(attempts@ =~= spec_cascade_attempts(db, ns, root));
            }
            (attempts, res)
        },
        CascadeAction::TrySignIn(_) => {
            proof {
                assert(false);
            }
            (attempts, CascadeResult::AllScopesRejected)
        },
    }
}

/// The cascade tries scopes in the fixed order database, namespace, root;
/// only an authentication failure moves it to the next scope; the first
/// success connects under that scope and nothing later is attempted; a
/// non-authentication failure aborts it with nothing later attempted.
pub proof fn lemma_cascade_order(db: SignInOutcome, ns: SignInOutcome, root: SignInOutcome)
    ensures
        ({
            let at = spec_cascade_attempts(db, ns, root);
            let fixed = seq![Scope::Database, Scope::Namespace, Scope::Root];
            &&& 1 <= at.len() <= 3
            &&& at[0] == Scope::Database
            &&& forall|i: int| 0 <= i < at.len() ==> at[i] == fixed[i]
            &&& forall|i: int|
                0 <= i < at.len() - 1 ==> spec_scope_outcome(db, ns, root, at[i])
                    == SignInOutcome::AuthFailure
            &&& forall|s: Scope|
                spec_cascade_result(db, ns, root) == CascadeResult::Connected(s) ==> {
                    &&& spec_scope_outcome(db, ns, root, s) == SignInOutcome::Success
                    &&& at.last() == s
                }
            &&& forall|s: Scope|
                spec_cascade_result(db, ns, root) == CascadeResult::FatalError(s) ==> {
                    &&& spec_scope_outcome(db, ns, root, s) == SignInOutcome::Fatal
                    &&& at.last() == s
                }
            &&& (spec_cascade_result(db, ns, root) == CascadeResult::AllScopesRejected <==> (db
                == SignInOutcome::AuthFailure && ns == SignInOutcome::AuthFailure && root
                == SignInOutcome::AuthFailure))
        }),
{
}

} // verus!
