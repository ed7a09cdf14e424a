//! The idempotency core: a caller-supplied key validated on construction, a
//! recorded response, and a store that keeps exactly one record per
//! `(identity, key)` pair.  The store mediates replay: a completed record
//! hands the saved response back byte for byte, a reserved record rejects the
//! concurrent duplicate, and a fresh pair is reserved atomically.

use vstd::prelude::*;
use vstd::string::StrSliceExecFns;
use vstd::string::StringExecFns;
use vstd::pervasive::VecAdditionalExecFns;

use crate::text::all_whitespace;
use crate::text::is_blank;

verus! {

/// Why a raw idempotency key was rejected.
#[derive(Clone, Copy, PartialEq, Eq, Structural, Debug)]
pub enum ValidationError {
    /// The key trims to the empty string.
    Empty,
    /// The key is longer than 50 characters.
    TooLong,
}

/// The outcome of key validation: blank keys are empty, keys over 50
/// characters are too long, everything else is accepted unchanged.
pub open spec fn spec_validate_key(s: Seq<char>) -> Result<(), ValidationError> {
    if all_whitespace(s) {
        Err(ValidationError::Empty)
    } else if s.len() > 50 {
        Err(ValidationError::TooLong)
    } else {
        Ok(())
    }
}

/// A caller-supplied idempotency key that passed validation: non-empty after
/// trimming and at most 50 characters.  The wrapped string is the raw input
/// unchanged, so a caller must resend the identical key to hit a replay.
#[derive(Debug)]
pub struct IdempotencyKey {
    key: String,
}

impl View for IdempotencyKey {
    type V = Seq<char>;

    closed spec fn view(&self) -> Seq<char> {
        self.key@
    }
}

impl IdempotencyKey {
    /// Every value of the type was accepted by `parse`.
    pub open spec fn valid(&self) -> bool {
        spec_validate_key(self@) is Ok
    }

    /// The validating factory: the only way to build an `IdempotencyKey`.
    pub fn parse(s: String) -> (r: Result<IdempotencyKey, ValidationError>)
        ensures
            match spec_validate_key(s@) {
                Ok(_) => (r matches Ok(k) && k@ == s@),
                Err(e) => r == Err::<IdempotencyKey, ValidationError>(e),
            },
    {
        if is_blank(s.as_str()) {
            Err(ValidationError::Empty)
        } else if s.as_str().unicode_len() > 50 {
            Err(ValidationError::TooLong)
        } else {
            Ok(IdempotencyKey { key: s })
        }
    }

    /// Read-only access to the raw key.
    pub fn as_str(&self) -> (r: &str)
        ensures
            r@ == self@,
    {
        self.key.as_str()
    }
}

/// One response header: a name and a value.  Names may repeat across a
/// response's header sequence, and the order is part of the recorded bytes.
pub struct HeaderPair {
    pub name: String,
    pub value: String,
}

impl View for HeaderPair {
    type V = (Seq<char>, Seq<char>);

    open spec fn view(&self) -> (Seq<char>, Seq<char>) {
        (self.name@, self.value@)
    }
}

/// The mathematical shape of a recorded response.
pub struct ResponseModel {
    pub status: u16,
    pub headers: Seq<(Seq<char>, Seq<char>)>,
    pub body: Seq<u8>,
}

/// A response as the store records it: status code, ordered header pairs and
/// raw body bytes.  Replay returns a value with exactly this view.
pub struct StoredResponse {
    pub status: u16,
    pub headers: Vec<HeaderPair>,
    pub body: Vec<u8>,
}

impl View for StoredResponse {
    type V = ResponseModel;

    open spec fn view(&self) -> ResponseModel {
        ResponseModel {
            status: self.status,
            headers: Seq::new(self.headers@.len(), |i: int| self.headers@[i]@),
            body: self.body@,
        }
    }
}

impl StoredResponse {
    /// A copy whose recorded bytes are identical to the original's.
    pub fn duplicate(&self) -> (c: StoredResponse)
        ensures
            c@ == self@,
    {
        let mut headers: Vec<HeaderPair> = Vec::new();
        let n: usize = self.headers.len();
        let mut i: usize = 0;
        while i < n
            invariant
                n == self.headers.len(),
                0 <= i <= n,
                headers@.len() == i,
                forall|j: int| 0 <= j < i ==> #[trigger] headers@[j]@ == self.headers@[j]@,
            decreases n - i,
        {
            let h = &self.headers[i];
            headers.push(HeaderPair { name: h.name.clone(), value: h.value.clone() });
            i = i + 1;
        }
        let body = self.body.clone();
        let c = StoredResponse { status: self.status, headers, body };
        proof {
            assert(c@.headers =~= self@.headers);
            assert(c@.body =~= self@.body);
        }
        c
    }

    /// Whether two responses hold identical recorded bytes.
    pub fn same_as(&self, other: &StoredResponse) -> (r: bool)
        ensures
            r <==> self@ == other@,
    {
        if self.status != other.status {
            return false;
        }
        if self.headers.len() != other.headers.len() {
            proof {
                assert(self@.headers.len() == self.headers@.len());
                assert(other@.headers.len() == other.headers@.len());
            }
            return false;
        }
        if !bytes_eq(&self.body, &other.body) {
            return false;
        }
        let n: usize = self.headers.len();
        let mut i: usize = 0;
        while i < n
            invariant
                n == self.headers.len(),
                n == other.headers.len(),
                0 <= i <= n,
                forall|j: int| 0 <= j < i ==> #[trigger] self.headers@[j]@ == other.headers@[j]@,
            decreases n - i,
        {
            let a = &self.headers[i];
            let b = &other.headers[i];
            if !a.name.eq(&b.name) || !a.value.eq(&b.value) {
                proof {
                    assert(self@.headers[i as int] == self.headers@[i as int]@);
                    assert(other@.headers[i as int] == other.headers@[i as int]@);
                }
                return false;
            }
            i = i + 1;
        }
        proof {
            assert(self@.headers =~= other@.headers);
        }
        true
    }
}

/// Whether two byte vectors hold the same bytes.
fn bytes_eq(a: &Vec<u8>, b: &Vec<u8>) -> (r: bool)
    ensures
        r <==> a@ == b@,
{
    if a.len() != b.len() {
        return false;
    }
    let n: usize = a.len();
    let mut i: usize = 0;
    while i < n
        invariant
            n == a@.len(),
            n == b@.len(),
            0 <= i <= n,
            forall|j: int| 0 <= j < i ==> a@[j] == b@[j],
        decreases n - i,
    {
        if a[i] != b[i] {
            return false;
        }
        i = i + 1;
    }
    proof {
        assert(a@ =~= b@);
    }
    true
}

/// The opaque identifier of the authenticated caller, resolved by the auth
/// collaborator; the core never derives one itself.
#[derive(Clone, Copy, PartialEq, Eq, Structural, Debug, Hash)]
pub struct IdentityId(pub u128);

/// A record key: the identity together with the raw key characters.
pub type RecordKey = (IdentityId, Seq<char>);

/// The mathematical shape of one idempotency record.
pub enum RecordModel {
    /// The pair is being processed; no response is recorded yet.
    Reserved { created_at: u64 },
    /// Processing finished and the response is recorded for replay.
    Completed { created_at: u64, response: ResponseModel },
}

/// Why a commit was refused.
#[derive(Clone, Copy, PartialEq, Eq, Structural, Debug)]
pub enum PersistenceError {
    /// No record exists for the pair; `try_reserve` was never granted.
    RecordMissing,
    /// The record already holds a response; committing twice is a
    /// programming error.
    AlreadyCompleted,
}

/// The outcome of `try_reserve`, as the store's model sees it.
pub enum ReservationModel {
    AlreadyCompleted(ResponseModel),
    Reserved,
    AlreadyReserved,
}

/// The outcome of `try_reserve`: either the saved response to replay, a
/// fresh reservation, or a conflict with an in-flight duplicate.
pub enum ReservationOutcome {
    /// A completed record exists; replay the carried response byte for byte
    /// and dispatch nothing.
    AlreadyCompleted(StoredResponse),
    /// No record existed; one was created in the reserved state and the
    /// caller now owns the dispatch.
    Reserved,
    /// A reserved record exists: a concurrent or crashed attempt holds the
    /// pair, so the request must fail with a retry-later signal.
    AlreadyReserved,
}

impl View for ReservationOutcome {
    type V = ReservationModel;

    open spec fn view(&self) -> ReservationModel {
        match self {
            ReservationOutcome::AlreadyCompleted(r) => ReservationModel::AlreadyCompleted(r@),
            ReservationOutcome::Reserved => ReservationModel::Reserved,
            ReservationOutcome::AlreadyReserved => ReservationModel::AlreadyReserved,
        }
    }
}

/// What `try_reserve` returns on a store holding `m`.
pub open spec fn spec_reserve_result(m: Map<RecordKey, RecordModel>, k: RecordKey) -> ReservationModel {
    if m.contains_key(k) {
        match m[k] {
            RecordModel::Reserved { .. } => ReservationModel::AlreadyReserved,
            RecordModel::Completed { response, .. } => ReservationModel::AlreadyCompleted(response),
        }
    } else {
        ReservationModel::Reserved
    }
}

/// The store contents after `try_reserve` on a store holding `m`.
pub open spec fn spec_reserve_post(
    m: Map<RecordKey, RecordModel>,
    k: RecordKey,
    now: u64,
) -> Map<RecordKey, RecordModel> {
    if m.contains_key(k) {
        m
    } else {
        m.insert(k, RecordModel::Reserved { created_at: now })
    }
}

/// Whether `commit` succeeds on a store holding `m`: exactly when the pair
/// holds a reserved record.
pub open spec fn spec_commit_ok(m: Map<RecordKey, RecordModel>, k: RecordKey) -> bool {
    m.contains_key(k) && m[k] is Reserved
}

/// The store contents after `commit` on a store holding `m`.
pub open spec fn spec_commit_post(
    m: Map<RecordKey, RecordModel>,
    k: RecordKey,
    response: ResponseModel,
) -> Map<RecordKey, RecordModel> {
    if spec_commit_ok(m, k) {
        match m[k] {
            RecordModel::Reserved { created_at } => m.insert(
                k,
                RecordModel::Completed { created_at, response },
            ),
            RecordModel::Completed { .. } => m,
        }
    } else {
        m
    }
}

/// Replay idempotence: on a store where `(identity, key)` is free, reserving
/// and then committing a response leaves the store in a state where every
/// later submission of the same pair is answered with exactly the committed
/// response — and leaves the store unchanged, so the dispatch side effects
/// are never repeated.
pub proof fn lemma_replay_idempotence(
    m: Map<RecordKey, RecordModel>,
    k: RecordKey,
    now: u64,
    response: ResponseModel,
    later: u64,
)
    requires
        spec_reserve_result(m, k) is Reserved,
    ensures
        spec_commit_ok(spec_reserve_post(m, k, now), k),
        spec_reserve_result(spec_commit_post(spec_reserve_post(m, k, now), k, response), k)
            == ReservationModel::AlreadyCompleted(response),
        spec_reserve_post(spec_commit_post(spec_reserve_post(m, k, now), k, response), k, later)
            == spec_commit_post(spec_reserve_post(m, k, now), k, response),
{
}

/// Key isolation: reserving or committing under one pair never changes what
/// the store answers for a different pair — whether the keys differ, the
/// identities differ, or both.
pub proof fn lemma_key_isolation(
    m: Map<RecordKey, RecordModel>,
    k1: RecordKey,
    k2: RecordKey,
    now: u64,
    response: ResponseModel,
)
    requires
        k1 != k2,
    ensures
        spec_reserve_result(spec_reserve_post(m, k1, now), k2) == spec_reserve_result(m, k2),
        spec_reserve_result(spec_commit_post(m, k1, response), k2) == spec_reserve_result(m, k2),
        spec_commit_ok(spec_reserve_post(m, k1, now), k2) == spec_commit_ok(m, k2),
{
}

/// Concurrent duplicate rejection: of two requests racing on a pair the
/// store has never seen, the one serialised first is granted the
/// reservation, the second is answered with a conflict, and the second
/// attempt leaves the store exactly as the first left it.
pub proof fn lemma_concurrent_duplicate_rejection(
    m: Map<RecordKey, RecordModel>,
    k: RecordKey,
    now1: u64,
    now2: u64,
)
    requires
        !m.contains_key(k),
    ensures
        spec_reserve_result(m, k) is Reserved,
        spec_reserve_result(spec_reserve_post(m, k, now1), k) is AlreadyReserved,
        spec_reserve_post(spec_reserve_post(m, k, now1), k, now2) == spec_reserve_post(m, k, now1),
{
}

enum RecordStatus {
    Reserved,
    Completed(StoredResponse),
}

struct StoreEntry {
    identity: IdentityId,
    key: String,
    created_at: u64,
    status: RecordStatus,
}

spec fn entry_key(e: StoreEntry) -> RecordKey {
    (e.identity, e.key@)
}

spec fn entry_model(e: StoreEntry) -> RecordModel {
    match e.status {
        RecordStatus::Reserved => RecordModel::Reserved { created_at: e.created_at },
        RecordStatus::Completed(r) => RecordModel::Completed {
            created_at: e.created_at,
            response: r@,
        },
    }
}

spec fn distinct_keys(s: Seq<StoreEntry>) -> bool {
    forall|i: int, j: int|
        0 <= i < j < s.len() ==> entry_key(#[trigger] s[i]) != entry_key(#[trigger] s[j])
}

spec fn entries_map(s: Seq<StoreEntry>) -> Map<RecordKey, RecordModel>
    decreases s.len(),
{
    if s.len() == 0 {
        Map::empty()
    } else {
        entries_map(s.drop_last()).insert(entry_key(s.last()), entry_model(s.last()))
    }
}

proof fn lemma_entries_map_index(s: Seq<StoreEntry>, i: int)
    requires
        distinct_keys(s),
        0 <= i < s.len(),
    ensures
        entries_map(s).contains_key(entry_key(s[i])),
        entries_map(s)[entry_key(s[i])] == entry_model(s[i]),
    decreases s.len(),
{
    if i == s.len() - 1 {
    } else {
        lemma_entries_map_index(s.drop_last(), i);
    }
}

proof fn lemma_entries_map_contains(s: Seq<StoreEntry>, k: RecordKey)
    requires
        entries_map(s).contains_key(k),
    ensures
        exists|i: int| 0 <= i < s.len() && entry_key(#[trigger] s[i]) == k,
    decreases s.len(),
{
    if s.len() == 0 {
    } else if entry_key(s.last()) == k {
        assert(entry_key(s[s.len() - 1]) == k);
    } else {
        lemma_entries_map_contains(s.drop_last(), k);
        let i = choose|i: int|
            0 <= i < s.drop_last().len() && entry_key(#[trigger] s.drop_last()[i]) == k;
        assert(entry_key(s[i]) == k);
    }
}

proof fn lemma_entries_map_update(s: Seq<StoreEntry>, i: int, e: StoreEntry)
    requires
        distinct_keys(s),
        0 <= i < s.len(),
        entry_key(e) == entry_key(s[i]),
    ensures
        entries_map(s.update(i, e)) == entries_map(s).insert(entry_key(e), entry_model(e)),
    decreases s.len(),
{
    let s2 = s.update(i, e);
    if i == s.len() - 1 {
        assert(s2.drop_last() =~= s.drop_last());
        assert(s2.last() == e);
        assert(entries_map(s2) =~= entries_map(s).insert(entry_key(e), entry_model(e)));
    } else {
        assert(s2.drop_last() =~= s.drop_last().update(i, e));
        assert(s2.last() == s.last());
        lemma_entries_map_update(s.drop_last(), i, e);
        assert(entry_key(s.last()) != entry_key(e));
        assert(entries_map(s2) =~= entries_map(s).insert(entry_key(e), entry_model(e)));
    }
}

/// The idempotency store: exactly one record per `(identity, key)` pair.
/// Its view is the map from pairs to records; uniqueness of the pair is the
/// store's single correctness invariant, and it is what makes `try_reserve`
/// safe under concurrent duplicate submissions.
pub struct IdempotencyStore {
    entries: Vec<StoreEntry>,
}

impl View for IdempotencyStore {
    type V = Map<RecordKey, RecordModel>;

    closed spec fn view(&self) -> Map<RecordKey, RecordModel> {
        entries_map(self.entries@)
    }
}

impl IdempotencyStore {
    /// The store keeps at most one record per pair.
    pub closed spec fn wf(&self) -> bool {
        distinct_keys(self.entries@)
    }

    /// An empty store.
    pub fn new() -> (s: IdempotencyStore)
        ensures
            s.wf(),
            s@ == Map::<RecordKey, RecordModel>::empty(),
    {
        IdempotencyStore { entries: Vec::new() }
    }

    fn find_entry(&self, identity: IdentityId, key: &String) -> (r: Option<usize>)
        ensures
            match r {
                Some(i) => i < self.entries@.len() && entry_key(self.entries@[i as int])
                    == (identity, key@),
                None => forall|j: int|
                    0 <= j < self.entries@.len() ==> entry_key(#[trigger] self.entries@[j])
                        != (identity, key@),
            },
    {
        let n: usize = self.entries.len();
        let mut i: usize = 0;
        while i < n
            invariant
                n == self.entries@.len(),
                0 <= i <= n,
                forall|j: int|
                    0 <= j < i ==> entry_key(#[trigger] self.entries@[j]) != (identity, key@),
            decreases n - i,
        {
            let e = &self.entries[i];
            if e.identity == identity && e.key.eq(key) {
                return Some(i);
            }
            i = i + 1;
        }
        None
    }

    /// Reserve the pair for this request, or report what stands in the way:
    /// a completed record is handed back for replay, a reserved one is a
    /// conflict.  Reservation and uniqueness test are one atomic
    /// step on the store.
    pub fn try_reserve(&mut self, identity: IdentityId, key: &IdempotencyKey, now: u64) -> (r:
        ReservationOutcome)
        requires
            old(self).wf(),
        ensures
            final(self).wf(),
            r@ == spec_reserve_result(old(self)@, (identity, key@)),
            final(self)@ == spec_reserve_post(old(self)@, (identity, key@), now),
    {
        let ghost k: RecordKey = (identity, key@);
        match self.find_entry(identity, &key.key) {
            Some(i) => {
                proof {
                    lemma_entries_map_index(self.entries@, i as int);
                }
                match &self.entries[i].status {
                    RecordStatus::Reserved => ReservationOutcome::AlreadyReserved,
                    RecordStatus::Completed(saved) => ReservationOutcome::AlreadyCompleted(
                        saved.duplicate(),
                    ),
                }
            },
            None => {
                proof {
                    if entries_map(self.entries@).contains_key(k) {
                        lemma_entries_map_contains(self.entries@, k);
                    }
                }
                let entry = StoreEntry {
                    identity,
                    key: key.key.clone(),
                    created_at: now,
                    status: RecordStatus::Reserved,
                };
                self.entries.push(entry);
                proof {
                    assert(self.entries@.drop_last() =~= old(self).entries@);
                }
                ReservationOutcome::Reserved
            },
        }
    }

    /// Attach the response to the pair's reserved record, completing it.
    /// Fails if the record is missing or already completed; only the holder
    /// that was granted the reservation may commit.
    pub fn commit(
        &mut self,
        identity: IdentityId,
        key: &IdempotencyKey,
        response: StoredResponse,
    ) -> (r: Result<(), PersistenceError>)
        requires
            old(self).wf(),
        ensures
            final(self).wf(),
            final(self)@ == spec_commit_post(old(self)@, (identity, key@), response@),
            r is Ok <==> spec_commit_ok(old(self)@, (identity, key@)),
            !old(self)@.contains_key((identity, key@)) ==> r == Err::<(), PersistenceError>(
                PersistenceError::RecordMissing,
            ),
            old(self)@.contains_key((identity, key@)) && !(old(self)@[(identity, key@)] is Reserved)
                ==> r == Err::<(), PersistenceError>(PersistenceError::AlreadyCompleted),
    {
        let ghost k: RecordKey = (identity, key@);
        match self.find_entry(identity, &key.key) {
            Some(i) => {
                proof {
                    lemma_entries_map_index(self.entries@, i as int);
                }
                let reserved = match &self.entries[i].status {
                    RecordStatus::Reserved => true,
                    RecordStatus::Completed(_) => false,
                };
                if reserved {
                    let created = self.entries[i].created_at;
                    let entry = StoreEntry {
                        identity,
                        key: key.key.clone(),
                        created_at: created,
                        status: RecordStatus::Completed(response),
                    };
                    proof {
                        assert(entry_key(entry) == entry_key(old(self).entries@[i as int]));
                    }
                    self.entries.set(i, entry);
                    proof {
                        lemma_entries_map_update(old(self).entries@, i as int, entry);
                    }
                    Ok(())
                } else {
                    Err(PersistenceError::AlreadyCompleted)
                }
            },
            None => {
                proof {
                    if entries_map(self.entries@).contains_key(k) {
                        lemma_entries_map_contains(self.entries@, k);
                    }
                }
                Err(PersistenceError::RecordMissing)
            },
        }
    }

    /// The saved response for the pair, if processing already completed.
    /// Read-only: replay never mutates the store.
    pub fn get_saved_response(&self, identity: IdentityId, key: &IdempotencyKey) -> (r: Option<
        StoredResponse,
    >)
        requires
            self.wf(),
        ensures
            match r {
                Some(resp) => self@.contains_key((identity, key@)) && (self@[(identity, key@)]
                    matches RecordModel::Completed { response, .. } && resp@ == response),
                None => !(self@.contains_key((identity, key@)) && self@[(identity, key@)] is
                    Completed),
            },
    {
        let ghost k: RecordKey = (identity, key@);
        match self.find_entry(identity, &key.key) {
            Some(i) => {
                proof {
                    lemma_entries_map_index(self.entries@, i as int);
                }
                match &self.entries[i].status {
                    RecordStatus::Reserved => None,
                    RecordStatus::Completed(saved) => Some(saved.duplicate()),
                }
            },
            None => {
                proof {
                    if entries_map(self.entries@).contains_key(k) {
                        lemma_entries_map_contains(self.entries@, k);
                    }
                }
                None
            },
        }
    }
}

} // verus!
