//! Job orchestration: request validation, the shared job table, and the
//! job lifecycle state machine.
//!
//! A request is validated synchronously; on acceptance a pending record is
//! inserted into the shared table before any work starts, so the returned
//! job identifier is immediately visible to status queries.  Jobs move
//! `Pending -> Proving -> Done | Failed` and never regress; a terminal
//! state has no successor.  The table itself is a concurrent map of an
//! outside crate, held behind trusted wrappers whose contracts speak of
//! the table's contents as a map from identifier to state.

use vstd::prelude::*;
use vstd::bytes::spec_u32_from_le_bytes;
use vstd::bytes::u32_from_le_bytes;
use vstd::slice::slice_subrange;
use vstd::string::StringExecFns;
use vstd::string::StringSliceAdditionalSpecFns;
use crate::hex::parse_hex_32;
use crate::hex::spec_all_hex_digits;
use crate::hex::spec_hex_decode;
use crate::hex::spec_hex_of;
use crate::hex::spec_strip_0x;
use crate::hex::hex_encode;
use crate::journal::Journal;
use crate::journal::decode_journal;
use crate::journal::spec_decode_journal;
use crate::sim::ActionEntry;

verus! {

/// What a finished job exposes: the decoded journal and the proof
/// artifacts as hex strings.
#[derive(Clone, Debug)]
pub struct ProveArtifacts {
    /// The decoded journal record.
    pub journal: Journal,
    /// The opaque seal, hex with a `0x` prefix.
    pub seal_hex: String,
    /// The program identity the receipt verifies against, hex.
    pub image_id_hex: String,
    /// The raw journal bytes, hex with a `0x` prefix.
    pub journal_bytes_hex: String,
}

/// The lifecycle state of one proving job.
#[derive(Clone, Debug)]
pub enum JobState {
    /// Accepted, not yet picked up.
    Pending,
    /// The proving step runs.
    Proving,
    /// Finished; the artifacts are available.
    Done(ProveArtifacts),
    /// Failed with an error text; never retried.
    Failed(String),
}

/// The legal single transitions of the job state machine.
pub open spec fn spec_job_step(a: JobState, b: JobState) -> bool {
    match (a, b) {
        (JobState::Pending, JobState::Proving) => true,
        (JobState::Proving, JobState::Done(_)) => true,
        (JobState::Proving, JobState::Failed(_)) => true,
        _ => false,
    }
}

/// Whether a state is terminal.
pub open spec fn spec_job_terminal(s: JobState) -> bool {
    s is Done || s is Failed
}

/// How far a job has advanced; transitions strictly increase it.
pub open spec fn spec_job_rank(s: JobState) -> int {
    match s {
        JobState::Pending => 0,
        JobState::Proving => 1,
        JobState::Done(_) => 2,
        JobState::Failed(_) => 2,
    }
}

/// A terminal state has no successor: no job regresses or is retried.
pub proof fn lemma_terminal_no_step(a: JobState, b: JobState)
    requires
        spec_job_terminal(a),
    ensures
        !spec_job_step(a, b),
{
}

/// Transitions strictly advance the rank: the lifecycle is monotonic.
pub proof fn lemma_step_monotonic(a: JobState, b: JobState)
    requires
        spec_job_step(a, b),
    ensures
        spec_job_rank(a) < spec_job_rank(b),
{
}

/// A pending job's only successor is the proving state: no job is done or
/// failed without having been proving.
pub proof fn lemma_pending_steps_to_proving(b: JobState)
    requires
        spec_job_step(JobState::Pending, b),
    ensures
        b is Proving,
{
}

/// The shared job table, keyed by job identifier.  The underlying map is
/// safe for concurrent insert and read; these contracts describe its
/// contents for one caller at a time.
pub struct JobStore {
    map: dashmap::DashMap<String, JobState>,
}

#[verifier::external_type_specification]
#[verifier::external_body]
#[verifier::reject_recursive_types(K)]
#[verifier::reject_recursive_types(V)]
#[verifier::reject_recursive_types(S)]
pub struct ExDashMap<K, V, S>(dashmap::DashMap<K, V, S>);

/// What the job table holds: a map from identifier to state.
pub uninterp spec fn jobs_of(s: JobStore) -> Map<Seq<char>, JobState>;

impl View for JobStore {
    type V = Map<Seq<char>, JobState>;

    open spec fn view(&self) -> Map<Seq<char>, JobState> {
        jobs_of(*self)
    }
}

/// Relies on dashmap::DashMap::new: a fresh map holds nothing.
#[verifier::external_body]
fn store_new_raw() -> (s: JobStore)
    ensures
        forall|k: Seq<char>| !jobs_of(s).contains_key(k),
{
    JobStore { map: dashmap::DashMap::new() }
}

/// Relies on dashmap::DashMap::insert: afterwards the value stands under
/// the key, and every other key is untouched.
#[verifier::external_body]
fn store_insert_raw(s: &mut JobStore, id: &String, st: JobState)
    ensures
        jobs_of(*final(s)) == jobs_of(*old(s)).insert(id@, st),
{
    s.map.insert(id.clone(), st);
}

/// Relies on dashmap::DashMap::get, and on the field-wise derived clone of
/// the stored state: hands back the state under the key, if any.
#[verifier::external_body]
fn store_get_raw(s: &JobStore, id: &String) -> (r: Option<JobState>)
    ensures
        r is None <==> !jobs_of(*s).contains_key(id@),
        r matches Some(st) ==> jobs_of(*s).contains_key(id@) && st == jobs_of(*s)[id@],
{
    match s.map.get(id) {
        Some(entry) => Some(entry.value().clone()),
        None => None,
    }
}

/// Relies on uuid::Uuid::new_v4 and its hyphenated lowercase text form: a
/// fresh random identifier of 36 characters.  Nothing relates two draws.
#[verifier::external_body]
fn fresh_job_id() -> (r: String)
    ensures
        r@.len() == 36,
{
    uuid::Uuid::new_v4().to_string()
}

impl JobStore {
    /// An empty job table.
    pub fn new() -> (s: JobStore)
        ensures
            s@ == Map::<Seq<char>, JobState>::empty(),
    {
        let s = store_new_raw();
        proof {
            assert(s@ =~= Map::<Seq<char>, JobState>::empty());
        }
        s
    }

    /// Creates a job under a fresh identifier in the pending state and
    /// returns the identifier.  The record is in the table when this
    /// returns, before any background work starts.
    pub fn create_job(&mut self) -> (id: String)
        ensures
            final(self)@ == old(self)@.insert(id@, JobState::Pending),
            final(self)@.contains_key(id@),
            final(self)@[id@] is Pending,
            id@.len() == 36,
    {
        let id = fresh_job_id();
        store_insert_raw(self, &id, JobState::Pending);
        id
    }

    /// Marks a pending job as proving; a legal step of the lifecycle.
    pub fn mark_proving(&mut self, id: &String)
        requires
            old(self)@.contains_key(id@),
            old(self)@[id@] is Pending,
        ensures
            final(self)@ == old(self)@.insert(id@, JobState::Proving),
            spec_job_step(old(self)@[id@], JobState::Proving),
    {
        store_insert_raw(self, id, JobState::Proving);
    }

    /// Marks a proving job as done with its artifacts; terminal.
    pub fn mark_done(&mut self, id: &String, artifacts: ProveArtifacts)
        requires
            old(self)@.contains_key(id@),
            old(self)@[id@] is Proving,
        ensures
            final(self)@ == old(self)@.insert(id@, JobState::Done(artifacts)),
            spec_job_step(old(self)@[id@], JobState::Done(artifacts)),
            spec_job_terminal(final(self)@[id@]),
    {
        store_insert_raw(self, id, JobState::Done(artifacts));
    }

    /// Marks a proving job as failed with an error text; terminal, never
    /// retried.
    pub fn mark_failed(&mut self, id: &String, error: String)
        requires
            old(self)@.contains_key(id@),
            old(self)@[id@] is Proving,
        ensures
            final(self)@ == old(self)@.insert(id@, JobState::Failed(error)),
            spec_job_step(old(self)@[id@], JobState::Failed(error)),
            spec_job_terminal(final(self)@[id@]),
    {
        store_insert_raw(self, id, JobState::Failed(error));
    }

    /// Looks up a job's state.  An unknown identifier is a not-found
    /// result, never an error.
    pub fn job_status(&self, id: &String) -> (r: Option<JobState>)
        ensures
            r is None <==> !self@.contains_key(id@),
            r matches Some(st) ==> self@.contains_key(id@) && st == self@[id@],
    {
        store_get_raw(self, id)
    }
}

/// Why a prove request is rejected before any job exists.
#[derive(Clone, Copy, Debug, PartialEq, Eq, Structural)]
pub enum RequestError {
    /// The player key is not 32 bytes of hex.
    InvalidPlayerPubkey,
    /// The challenge identifier is not 32 bytes of hex.
    InvalidChallengeId,
    /// The action log is empty.
    EmptyActionLog,
    /// The window of the entry at this index ends at or before its start.
    MalformedWindow(usize),
}

/// The plain values of an accepted request.
#[derive(Clone, Copy, Debug, PartialEq, Eq)]
pub struct ValidatedRequest {
    /// First four bytes of the challenge identifier, little endian.
    pub challenge_id: u32,
    /// The player's public key.
    pub player_pubkey: [u8; 32],
}

/// Whether a string holds a 32-byte hex identifier after `0x` stripping.
pub open spec fn spec_hex32_ok(s: Seq<u8>) -> bool {
    let t = spec_strip_0x(s);
    t.len() == 64 && spec_all_hex_digits(t)
}

/// The 32 bytes such a string denotes.
pub open spec fn spec_hex32_val(s: Seq<u8>) -> Seq<u8> {
    spec_hex_decode(spec_strip_0x(s))
}

/// The first entry index whose window is malformed, scanning from `i`.
pub open spec fn spec_first_bad_window_from(log: Seq<ActionEntry>, i: int) -> Option<int>
    decreases log.len() - i,
{
    if i < 0 || i >= log.len() {
        None
    } else if log[i].unassigned_at_ms <= log[i].assigned_at_ms {
        Some(i)
    } else {
        spec_first_bad_window_from(log, i + 1)
    }
}

/// Validates the request surface before any job is created: both
/// identifiers must be 32 bytes of hex, the log must be non-empty, and
/// every window must end after it starts.  Checks run in that order and
/// the first failure is reported.
pub fn validate_prove_request(
    challenge_id_hex: &str,
    player_pubkey_hex: &str,
    action_log: &Vec<ActionEntry>,
) -> (r: Result<ValidatedRequest, RequestError>)
    ensures
        ({
            let pk_ok = spec_hex32_ok(player_pubkey_hex.spec_bytes());
            let ch_ok = spec_hex32_ok(challenge_id_hex.spec_bytes());
            match r {
                Ok(v) => pk_ok && ch_ok && action_log@.len() > 0 && spec_first_bad_window_from(
                    action_log@,
                    0,
                ) is None && v.player_pubkey@ == spec_hex32_val(player_pubkey_hex.spec_bytes())
                    && v.challenge_id == spec_u32_from_le_bytes(
                    spec_hex32_val(challenge_id_hex.spec_bytes()).subrange(0, 4),
                ),
                Err(RequestError::InvalidPlayerPubkey) => !pk_ok,
                Err(RequestError::InvalidChallengeId) => pk_ok && !ch_ok,
                Err(RequestError::EmptyActionLog) => pk_ok && ch_ok && action_log@.len() == 0,
                Err(RequestError::MalformedWindow(i)) => pk_ok && ch_ok && action_log@.len() > 0
                    && spec_first_bad_window_from(action_log@, 0) == Some(i as int),
            }
        }),
{
    let player_pubkey = match parse_hex_32(player_pubkey_hex) {
        Ok(k) => k,
        Err(_) => {
            return Err(RequestError::InvalidPlayerPubkey);
        },
    };
    let challenge_bytes = match parse_hex_32(challenge_id_hex) {
        Ok(b) => b,
        Err(_) => {
            return Err(RequestError::InvalidChallengeId);
        },
    };
    if action_log.len() == 0 {
        return Err(RequestError::EmptyActionLog);
    }
    let n = action_log.len();
    let mut i: usize = 0;
    while i < n
        invariant
            0 <= i <= n,
            n == action_log@.len(),
            n > 0,
            spec_hex32_ok(player_pubkey_hex.spec_bytes()),
            spec_hex32_ok(challenge_id_hex.spec_bytes()),
            player_pubkey@ == spec_hex32_val(player_pubkey_hex.spec_bytes()),
            challenge_bytes@ == spec_hex32_val(challenge_id_hex.spec_bytes()),
            spec_first_bad_window_from(action_log@, 0) == spec_first_bad_window_from(
                action_log@,
                i as int,
            ),
        decreases n - i,
    {
        let e = action_log[i];
        if e.unassigned_at_ms <= e.assigned_at_ms {
            return Err(RequestError::MalformedWindow(i));
        }
        i += 1;
    }
    let challenge_id = u32_from_le_bytes(slice_subrange(challenge_bytes.as_slice(), 0, 4));
    proof {
        assert(challenge_bytes@.subrange(0, 4) =~= spec_hex32_val(
            challenge_id_hex.spec_bytes(),
        ).subrange(0, 4));
    }
    Ok(ValidatedRequest { challenge_id, player_pubkey })
}

/// Builds the artifacts a finished job exposes from the receipt's parts:
/// the journal is decoded and the opaque bytes become hex strings.  Fails
/// exactly when the journal is not 64 bytes.
pub fn build_artifacts(seal: &Vec<u8>, image_id: &Vec<u8>, journal_bytes: &Vec<u8>) -> (r: Option<
    ProveArtifacts,
>)
    ensures
        r is None <==> journal_bytes@.len() != 64,
        r matches Some(a) ==> {
            &&& a.journal@ == spec_decode_journal(journal_bytes@)
            &&& a.seal_hex@ == "0x"@ + spec_hex_of(seal@)
            &&& a.image_id_hex@ == spec_hex_of(image_id@)
            &&& a.journal_bytes_hex@ == "0x"@ + spec_hex_of(journal_bytes@)
        },
{
    let journal = match decode_journal(journal_bytes.as_slice()) {
        Some(j) => j,
        None => {
            return None;
        },
    };
    let seal_hex = String::from_str("0x").concat(hex_encode(seal.as_slice()).as_str());
    let image_id_hex = hex_encode(image_id.as_slice());
    let journal_bytes_hex = String::from_str("0x").concat(
        hex_encode(journal_bytes.as_slice()).as_str(),
    );
    Some(ProveArtifacts { journal, seal_hex, image_id_hex, journal_bytes_hex })
}

} // verus!
