//! The dispatch orchestrator.  A publish request is processed in three
//! verified steps: `begin_publish` validates the key and reserves the pair
//! (replaying a saved response or rejecting a concurrent duplicate without
//! any dispatch), `plan_dispatch` turns the raw recipient list into per-
//! recipient send/skip decisions with one bad address never aborting the
//! batch, and `complete_publish` records the response for future replay.
//! The driver around the library performs the actual sends between the
//! planning and the commit, one attempt per recipient, no retry.

use vstd::prelude::*;
use vstd::string::StringExecFns;

use crate::domain::subscriber_email::SubscriberEmail;
use crate::domain::subscriber_email::email_valid;
use crate::idempotency::IdempotencyKey;
use crate::idempotency::IdempotencyStore;
use crate::idempotency::IdentityId;
use crate::idempotency::PersistenceError;
use crate::idempotency::ReservationModel;
use crate::idempotency::ReservationOutcome;
use crate::idempotency::HeaderPair;
use crate::idempotency::RecordKey;
use crate::idempotency::RecordModel;
use crate::idempotency::ResponseModel;
use crate::idempotency::StoredResponse;
use crate::idempotency::ValidationError;
use crate::idempotency::spec_commit_ok;
use crate::idempotency::spec_commit_post;
use crate::idempotency::spec_reserve_post;
use crate::idempotency::spec_reserve_result;
use crate::idempotency::spec_validate_key;

verus! {

/// The body of a publish request: a title and the two content renderings.
pub struct BodyData {
    pub title: String,
    pub content: Content,
}

/// The html and plain-text renderings of the message.
pub struct Content {
    pub html: String,
    pub text: String,
}

/// What a publish request can fail with at the HTTP boundary.
pub enum PublishError {
    /// The caller's credentials were rejected.
    AuthError(String),
    /// An unexpected collaborator failure; the cause is recorded.
    UnexpectedError(String),
}

/// The response that `PublishError::error_response` synthesises.
pub open spec fn spec_error_response(e: PublishError) -> ResponseModel {
    match e {
        PublishError::AuthError(_) => ResponseModel {
            status: 401,
            headers: seq![("WWW-Authenticate"@, "Basic realm=\"publish\""@)],
            body: Seq::empty(),
        },
        PublishError::UnexpectedError(_) => ResponseModel {
            status: 500,
            headers: Seq::empty(),
            body: Seq::empty(),
        },
    }
}

impl PublishError {
    /// The brief description of the failure, as the caller sees it.
    pub fn message(&self) -> (r: String)
        ensures
            match self {
                PublishError::AuthError(_) => r@ == "Authentication failed"@,
                PublishError::UnexpectedError(cause) => r@ == cause@,
            },
    {
        match self {
            PublishError::AuthError(_) => String::from_str("Authentication failed"),
            PublishError::UnexpectedError(cause) => cause.clone(),
        }
    }

    /// The HTTP-level outcome of the failure: authentication failures are
    /// answered 401 with a `Basic` challenge, everything unexpected is a
    /// bare 500.
    pub fn error_response(&self) -> (r: StoredResponse)
        ensures
            r@ == spec_error_response(*self),
    {
        match self {
            PublishError::AuthError(_) => {
                let mut headers: Vec<HeaderPair> = Vec::new();
                headers.push(
                    HeaderPair {
                        name: String::from_str("WWW-Authenticate"),
                        value: String::from_str("Basic realm=\"publish\""),
                    },
                );
                let r = StoredResponse { status: 401, headers, body: Vec::new() };
                proof {
                    assert(r@.headers =~= spec_error_response(*self).headers);
                    assert(r@.body =~= spec_error_response(*self).body);
                }
                r
            },
            PublishError::UnexpectedError(_) => {
                let r = StoredResponse { status: 500, headers: Vec::new(), body: Vec::new() };
                proof {
                    assert(r@.headers =~= spec_error_response(*self).headers);
                    assert(r@.body =~= spec_error_response(*self).body);
                }
                r
            },
        }
    }
}

/// The mathematical shape of one per-recipient delivery outcome.
pub struct DeliveryOutcomeModel {
    pub address: Seq<char>,
    pub succeeded: bool,
    pub error: Option<Seq<char>>,
}

/// One recipient's fate in a batch: the address, whether delivery
/// succeeded, and the failure summary if it did not.  Outcomes only feed
/// operator diagnostics; they never gate the batch result.
pub struct DeliveryOutcome {
    pub address: String,
    pub succeeded: bool,
    pub error: Option<String>,
}

impl View for DeliveryOutcome {
    type V = DeliveryOutcomeModel;

    open spec fn view(&self) -> DeliveryOutcomeModel {
        DeliveryOutcomeModel {
            address: self.address@,
            succeeded: self.succeeded,
            error: match self.error {
                Some(e) => Some(e@),
                None => None,
            },
        }
    }
}

impl DeliveryOutcome {
    /// Record a successful send.
    pub fn delivered(address: String) -> (o: DeliveryOutcome)
        ensures
            o@ == (DeliveryOutcomeModel { address: address@, succeeded: true, error: None }),
    {
        DeliveryOutcome { address, succeeded: true, error: None }
    }

    /// Record a failed or skipped send with its cause; the failure is
    /// logged, never propagated.
    pub fn failed(address: String, cause: String) -> (o: DeliveryOutcome)
        ensures
            o@ == (DeliveryOutcomeModel {
                address: address@,
                succeeded: false,
                error: Some(cause@),
            }),
    {
        DeliveryOutcome { address, succeeded: false, error: Some(cause) }
    }
}

/// The model of one planned step of the fan-out.
pub enum PlanModel {
    Send(Seq<char>),
    Skip(DeliveryOutcomeModel),
}

/// One planned step of the fan-out: send to a validated address, or skip a
/// malformed one with its outcome already recorded.
pub enum RecipientPlan {
    /// The address parsed; the driver owes it exactly one send attempt.
    Send(SubscriberEmail),
    /// The address failed validation; no send is attempted and the batch
    /// continues.
    Skip(DeliveryOutcome),
}

impl View for RecipientPlan {
    type V = PlanModel;

    open spec fn view(&self) -> PlanModel {
        match self {
            RecipientPlan::Send(e) => PlanModel::Send(e@),
            RecipientPlan::Skip(o) => PlanModel::Skip(o@),
        }
    }
}

/// The planned step for one raw recipient: valid addresses are sent to,
/// anything else is skipped with a failure outcome carrying the parse
/// message.
pub open spec fn spec_plan_entry(s: Seq<char>) -> PlanModel {
    if email_valid(s) {
        PlanModel::Send(s)
    } else {
        PlanModel::Skip(
            DeliveryOutcomeModel {
                address: s,
                succeeded: false,
                error: Some(s + " is not a valid subscriber email"@),
            },
        )
    }
}

/// Turn the recipient list, in the order the subscriber source returned it,
/// into per-recipient decisions.  Exactly the validly-parsed addresses are
/// planned for a send; a malformed entry is skipped and recorded, and never
/// aborts the batch.
pub fn plan_dispatch(recipients: &Vec<String>) -> (plan: Vec<RecipientPlan>)
    ensures
        plan@.len() == recipients@.len(),
        forall|i: int|
            0 <= i < recipients@.len() ==> #[trigger] plan@[i]@ == spec_plan_entry(
                recipients@[i]@,
            ),
{
    let mut plan: Vec<RecipientPlan> = Vec::new();
    let n: usize = recipients.len();
    let mut i: usize = 0;
    while i < n
        invariant
            n == recipients@.len(),
            0 <= i <= n,
            plan@.len() == i,
            forall|j: int|
                0 <= j < i ==> #[trigger] plan@[j]@ == spec_plan_entry(recipients@[j]@),
        decreases n - i,
    {
        let raw = recipients[i].clone();
        match SubscriberEmail::parse(raw) {
            Ok(email) => plan.push(RecipientPlan::Send(email)),
            Err(cause) => plan.push(
                RecipientPlan::Skip(DeliveryOutcome::failed(recipients[i].clone(), cause)),
            ),
        }
        i = i + 1;
    }
    plan
}

/// Partial-failure isolation: in any planned batch, a send is owed for
/// exactly the validly-parsed addresses, each under its own entry, and a
/// malformed entry is skipped with a recorded failure instead of aborting
/// the batch.  The batch's response is `spec_success_response()`, which
/// takes no input at all, so delivery failures cannot change it.
pub proof fn lemma_partial_failure_isolation(plan: Seq<PlanModel>, recipients: Seq<Seq<char>>)
    requires
        plan.len() == recipients.len(),
        forall|i: int|
            0 <= i < recipients.len() ==> #[trigger] plan[i] == spec_plan_entry(recipients[i]),
    ensures
        forall|i: int|
            0 <= i < plan.len() ==> ((#[trigger] plan[i] is Send) <==> email_valid(recipients[i])),
        forall|i: int|
            0 <= i < plan.len() ==> (#[trigger] plan[i] matches PlanModel::Send(a) ==> a
                == recipients[i]),
        forall|i: int|
            0 <= i < plan.len() ==> (#[trigger] plan[i] matches PlanModel::Skip(o)
                ==> !o.succeeded && o.address == recipients[i]),
{
}

/// The success response: a redirect to the newsletter form.  It takes no
/// argument at all, so it is identical however many individual deliveries
/// failed — delivery failures are an operational concern, not a
/// caller-visible error.
pub open spec fn spec_success_response() -> ResponseModel {
    ResponseModel {
        status: 303,
        headers: seq![("Location"@, "/admin/newsletters"@)],
        body: Seq::empty(),
    }
}

/// Synthesise the success response returned for a finished batch.
pub fn success_response() -> (r: StoredResponse)
    ensures
        r@ == spec_success_response(),
{
    let mut headers: Vec<HeaderPair> = Vec::new();
    headers.push(
        HeaderPair {
            name: String::from_str("Location"),
            value: String::from_str("/admin/newsletters"),
        },
    );
    let r = StoredResponse { status: 303, headers, body: Vec::new() };
    proof {
        assert(r@.headers =~= spec_success_response().headers);
        assert(r@.body =~= spec_success_response().body);
    }
    r
}

/// The model of what `begin_publish` decides.
pub enum BeginModel {
    Invalid(ValidationError),
    Replay(ResponseModel),
    Conflict,
    Proceed(Seq<char>),
}

/// How a publish request starts: rejected key, replayed response, conflict
/// with an in-flight duplicate, or a fresh reservation to dispatch under.
pub enum BeginOutcome {
    /// The raw key failed validation; nothing was reserved.
    Invalid(ValidationError),
    /// A completed record exists: return this response unchanged and
    /// dispatch to no one.
    Replay(StoredResponse),
    /// The pair is reserved by an in-flight attempt: fail with a
    /// retry-later signal and dispatch to no one.
    Conflict,
    /// The pair is now reserved for this request; dispatch, then commit
    /// with this key.
    Proceed(IdempotencyKey),
}

impl View for BeginOutcome {
    type V = BeginModel;

    open spec fn view(&self) -> BeginModel {
        match self {
            BeginOutcome::Invalid(e) => BeginModel::Invalid(*e),
            BeginOutcome::Replay(r) => BeginModel::Replay(r@),
            BeginOutcome::Conflict => BeginModel::Conflict,
            BeginOutcome::Proceed(k) => BeginModel::Proceed(k@),
        }
    }
}

/// What `begin_publish` decides on a store holding `m`.
pub open spec fn spec_begin_result(
    m: Map<RecordKey, RecordModel>,
    identity: IdentityId,
    raw_key: Seq<char>,
) -> BeginModel {
    match spec_validate_key(raw_key) {
        Err(e) => BeginModel::Invalid(e),
        Ok(_) => match spec_reserve_result(m, (identity, raw_key)) {
            ReservationModel::AlreadyCompleted(r) => BeginModel::Replay(r),
            ReservationModel::AlreadyReserved => BeginModel::Conflict,
            ReservationModel::Reserved => BeginModel::Proceed(raw_key),
        },
    }
}

/// The store contents after `begin_publish`: only a fresh, valid pair
/// mutates the store, by creating its reservation.
pub open spec fn spec_begin_post(
    m: Map<RecordKey, RecordModel>,
    identity: IdentityId,
    raw_key: Seq<char>,
    now: u64,
) -> Map<RecordKey, RecordModel> {
    if spec_validate_key(raw_key) is Ok {
        spec_reserve_post(m, (identity, raw_key), now)
    } else {
        m
    }
}

/// Start a publish request: validate the raw key, then reserve the pair.
/// An invalid key is rejected before any store access; a completed pair is
/// replayed byte for byte; a reserved pair is a conflict.  Only a fresh
/// pair proceeds to dispatch, and only that case mutates the store.
pub fn begin_publish(
    store: &mut IdempotencyStore,
    identity: IdentityId,
    raw_key: String,
    now: u64,
) -> (r: BeginOutcome)
    requires
        old(store).wf(),
    ensures
        final(store).wf(),
        r@ == spec_begin_result(old(store)@, identity, raw_key@),
        final(store)@ == spec_begin_post(old(store)@, identity, raw_key@, now),
{
    match IdempotencyKey::parse(raw_key) {
        Err(e) => BeginOutcome::Invalid(e),
        Ok(key) => match store.try_reserve(identity, &key, now) {
            ReservationOutcome::AlreadyCompleted(saved) => BeginOutcome::Replay(saved),
            ReservationOutcome::AlreadyReserved => BeginOutcome::Conflict,
            ReservationOutcome::Reserved => BeginOutcome::Proceed(key),
        },
    }
}

/// Replay idempotence, at the request level: when a publish request is
/// told to proceed and then commits its response, resubmitting the same
/// `(identity, key)` pair is answered with a replay of exactly that
/// response, and the resubmission changes nothing — dispatch happens only
/// on `Proceed`, so the notifier is invoked once per recipient in total,
/// not once per submission.
pub proof fn lemma_publish_replay(
    m: Map<RecordKey, RecordModel>,
    identity: IdentityId,
    raw_key: Seq<char>,
    now: u64,
    response: ResponseModel,
    later: u64,
)
    requires
        spec_begin_result(m, identity, raw_key) is Proceed,
    ensures
        spec_commit_ok(spec_begin_post(m, identity, raw_key, now), (identity, raw_key)),
        spec_begin_result(
            spec_commit_post(
                spec_begin_post(m, identity, raw_key, now),
                (identity, raw_key),
                response,
            ),
            identity,
            raw_key,
        ) == BeginModel::Replay(response),
        spec_begin_post(
            spec_commit_post(
                spec_begin_post(m, identity, raw_key, now),
                (identity, raw_key),
                response,
            ),
            identity,
            raw_key,
            later,
        ) == spec_commit_post(
            spec_begin_post(m, identity, raw_key, now),
            (identity, raw_key),
            response,
        ),
{
    crate::idempotency::lemma_replay_idempotence(m, (identity, raw_key), now, response, later);
}

/// Concurrent duplicate rejection, at the request level: once one request
/// is told to proceed under a pair, a second request with the same pair is
/// answered with a conflict — before any dispatch — and leaves the store
/// untouched.
pub proof fn lemma_publish_duplicate_conflict(
    m: Map<RecordKey, RecordModel>,
    identity: IdentityId,
    raw_key: Seq<char>,
    now1: u64,
    now2: u64,
)
    requires
        spec_begin_result(m, identity, raw_key) is Proceed,
    ensures
        spec_begin_result(spec_begin_post(m, identity, raw_key, now1), identity, raw_key)
            is Conflict,
        spec_begin_post(spec_begin_post(m, identity, raw_key, now1), identity, raw_key, now2)
            == spec_begin_post(m, identity, raw_key, now1),
{
    crate::idempotency::lemma_concurrent_duplicate_rejection(
        m,
        (identity, raw_key),
        now1,
        now2,
    );
}

/// Finish a publish request: record the response under the reserved pair
/// and hand back the identical response for the caller.  Failure here is
/// fatal to the request — the caller must never receive a response that was
/// not durably recorded, or future replay would be defeated.
pub fn complete_publish(
    store: &mut IdempotencyStore,
    identity: IdentityId,
    key: &IdempotencyKey,
    response: StoredResponse,
) -> (r: Result<StoredResponse, PersistenceError>)
    requires
        old(store).wf(),
    ensures
        final(store).wf(),
        final(store)@ == spec_commit_post(old(store)@, (identity, key@), response@),
        r matches Ok(returned) ==> spec_commit_ok(old(store)@, (identity, key@)) && returned@
            == response@,
        r matches Err(e) ==> !spec_commit_ok(old(store)@, (identity, key@)) && final(store)@
            == old(store)@,
        !old(store)@.contains_key((identity, key@)) ==> r matches Err(
            PersistenceError::RecordMissing,
        ),
        old(store)@.contains_key((identity, key@)) && !(old(store)@[(identity, key@)] is Reserved)
            ==> r matches Err(PersistenceError::AlreadyCompleted),
{
    let returned = response.duplicate();
    match store.commit(identity, key, response) {
        Ok(_) => Ok(returned),
        Err(e) => Err(e),
    }
}

} // verus!
