//! The journal codec: the fixed 64-byte record that carries a round's
//! public outcome across the proof boundary.
//!
//! Little-endian layout, fields in order: challenge id (4), player public
//! key (32), bot configuration id (4), threats cured (4), systems destroyed
//! (4), data leaked x100 (4), score (4), duration ms (4), accuracy bps (4).
//! There is no version field; any layout change is breaking.  Decoding
//! rejects every payload whose length is not exactly 64.

use vstd::prelude::*;
use vstd::bytes::spec_u32_to_le_bytes;
use vstd::bytes::spec_u32_from_le_bytes;
use vstd::bytes::lemma_auto_spec_u32_to_from_le_bytes;
use vstd::bytes::u32_to_le_bytes;
use vstd::bytes::u32_from_le_bytes;
use vstd::slice::slice_subrange;
use vstd::slice::slice_to_vec;

verus! {

/// Length of an encoded journal in bytes.
pub const JOURNAL_LEN: usize = 64;

/// The outcome counters of one simulated round.
#[derive(Clone, Copy, Debug, PartialEq, Eq, Structural)]
pub struct RoundOutcome {
    /// Threats that reached full cure progress.
    pub threats_cured: u32,
    /// Threats that reached full damage.
    pub systems_destroyed: u32,
    /// Data-leak metric, percent x100, at most 10000.
    pub data_leaked_x100: u32,
    /// Published score.
    pub score: u32,
    /// Round duration in ms.
    pub duration_ms: u32,
    /// Accuracy in basis points, at most 10000.
    pub accuracy_bps: u32,
}

/// The full journal record: round identity plus outcome.
#[derive(Clone, Copy, Debug, PartialEq, Eq)]
pub struct Journal {
    /// Challenge identifier, passed through as an opaque public input.
    pub challenge_id: u32,
    /// The player's public key.
    pub player_pubkey: [u8; 32],
    /// Identifier of the bot configuration the round ran against.
    pub bot_config_id: u32,
    /// The outcome counters.
    pub outcome: RoundOutcome,
}

/// Mathematical model of a journal record; the view of `Journal`.
pub ghost struct JournalModel {
    /// Challenge identifier.
    pub challenge_id: u32,
    /// The player's public key bytes; 32 of them in a well-formed record.
    pub player_pubkey: Seq<u8>,
    /// Identifier of the bot configuration.
    pub bot_config_id: u32,
    /// The outcome counters.
    pub outcome: RoundOutcome,
}

impl View for Journal {
    type V = JournalModel;

    open spec fn view(&self) -> JournalModel {
        JournalModel {
            challenge_id: self.challenge_id,
            player_pubkey: self.player_pubkey@,
            bot_config_id: self.bot_config_id,
            outcome: self.outcome,
        }
    }
}

/// The 64-byte little-endian encoding of a journal record.
pub open spec fn spec_encode_journal(m: JournalModel) -> Seq<u8> {
    spec_u32_to_le_bytes(m.challenge_id) + m.player_pubkey + spec_u32_to_le_bytes(m.bot_config_id)
        + spec_u32_to_le_bytes(m.outcome.threats_cured) + spec_u32_to_le_bytes(
        m.outcome.systems_destroyed,
    ) + spec_u32_to_le_bytes(m.outcome.data_leaked_x100) + spec_u32_to_le_bytes(m.outcome.score)
        + spec_u32_to_le_bytes(m.outcome.duration_ms) + spec_u32_to_le_bytes(
        m.outcome.accuracy_bps,
    )
}

/// The journal record denoted by a 64-byte buffer.
pub open spec fn spec_decode_journal(b: Seq<u8>) -> JournalModel {
    JournalModel {
        challenge_id: spec_u32_from_le_bytes(b.subrange(0, 4)),
        player_pubkey: b.subrange(4, 36),
        bot_config_id: spec_u32_from_le_bytes(b.subrange(36, 40)),
        outcome: RoundOutcome {
            threats_cured: spec_u32_from_le_bytes(b.subrange(40, 44)),
            systems_destroyed: spec_u32_from_le_bytes(b.subrange(44, 48)),
            data_leaked_x100: spec_u32_from_le_bytes(b.subrange(48, 52)),
            score: spec_u32_from_le_bytes(b.subrange(52, 56)),
            duration_ms: spec_u32_from_le_bytes(b.subrange(56, 60)),
            accuracy_bps: spec_u32_from_le_bytes(b.subrange(60, 64)),
        },
    }
}

/// Encodes a journal record into its 64 bytes.
pub fn encode_journal(j: &Journal) -> (out: Vec<u8>)
    ensures
        out@ == spec_encode_journal(j@),
        out@.len() == 64,
{
    proof {
        lemma_auto_spec_u32_to_from_le_bytes();
    }
    let mut out: Vec<u8> = Vec::new();
    let mut field = u32_to_le_bytes(j.challenge_id);
    out.append(&mut field);
    out.extend_from_slice(j.player_pubkey.as_slice());
    let mut field = u32_to_le_bytes(j.bot_config_id);
    out.append(&mut field);
    let mut field = u32_to_le_bytes(j.outcome.threats_cured);
    out.append(&mut field);
    let mut field = u32_to_le_bytes(j.outcome.systems_destroyed);
    out.append(&mut field);
    let mut field = u32_to_le_bytes(j.outcome.data_leaked_x100);
    out.append(&mut field);
    let mut field = u32_to_le_bytes(j.outcome.score);
    out.append(&mut field);
    let mut field = u32_to_le_bytes(j.outcome.duration_ms);
    out.append(&mut field);
    let mut field = u32_to_le_bytes(j.outcome.accuracy_bps);
    out.append(&mut field);
    out
}

/// Decodes a 64-byte buffer into a journal record; any other length is
/// rejected.
pub fn decode_journal(bytes: &[u8]) -> (r: Option<Journal>)
    ensures
        (r is None) <==> bytes@.len() != 64,
        r matches Some(j) ==> j@ == spec_decode_journal(bytes@),
{
    if bytes.len() != 64 {
        return None;
    }
    let challenge_id = u32_from_le_bytes(slice_subrange(bytes, 0, 4));
    let pubkey_vec = slice_to_vec(slice_subrange(bytes, 4, 36));
    let bot_config_id = u32_from_le_bytes(slice_subrange(bytes, 36, 40));
    let threats_cured = u32_from_le_bytes(slice_subrange(bytes, 40, 44));
    let systems_destroyed = u32_from_le_bytes(slice_subrange(bytes, 44, 48));
    let data_leaked_x100 = u32_from_le_bytes(slice_subrange(bytes, 48, 52));
    let score = u32_from_le_bytes(slice_subrange(bytes, 52, 56));
    let duration_ms = u32_from_le_bytes(slice_subrange(bytes, 56, 60));
    let accuracy_bps = u32_from_le_bytes(slice_subrange(bytes, 60, 64));

    let mut player_pubkey: [u8; 32] = [0; 32];
    let mut i: usize = 0;
    while i < 32
        invariant
            0 <= i <= 32,
            pubkey_vec@ == bytes@.subrange(4, 36),
            pubkey_vec@.len() == 32,
            bytes@.len() == 64,
            player_pubkey@.len() == 32,
            forall|q: int| 0 <= q < i ==> player_pubkey@[q] == bytes@.subrange(4, 36)[q],
        decreases 32 - i,
    {
        player_pubkey[i] = pubkey_vec[i];
        i += 1;
    }
    proof {
        assert(player_pubkey@ =~= bytes@.subrange(4, 36));
    }
    Some(
        Journal {
            challenge_id,
            player_pubkey,
            bot_config_id,
            outcome: RoundOutcome {
                threats_cured,
                systems_destroyed,
                data_leaked_x100,
                score,
                duration_ms,
                accuracy_bps,
            },
        },
    )
}

/// Round trip: decoding an encoded record reproduces every field, and the
/// encoding is always exactly 64 bytes.
pub proof fn lemma_journal_round_trip(m: JournalModel)
    requires
        m.player_pubkey.len() == 32,
    ensures
        spec_encode_journal(m).len() == 64,
        spec_decode_journal(spec_encode_journal(m)) == m,
{
    lemma_auto_spec_u32_to_from_le_bytes();
    let e = spec_encode_journal(m);
    assert(e.subrange(0, 4) =~= spec_u32_to_le_bytes(m.challenge_id));
    assert(e.subrange(4, 36) =~= m.player_pubkey);
    assert(e.subrange(36, 40) =~= spec_u32_to_le_bytes(m.bot_config_id));
    assert(e.subrange(40, 44) =~= spec_u32_to_le_bytes(m.outcome.threats_cured));
    assert(e.subrange(44, 48) =~= spec_u32_to_le_bytes(m.outcome.systems_destroyed));
    assert(e.subrange(48, 52) =~= spec_u32_to_le_bytes(m.outcome.data_leaked_x100));
    assert(e.subrange(52, 56) =~= spec_u32_to_le_bytes(m.outcome.score));
    assert(e.subrange(56, 60) =~= spec_u32_to_le_bytes(m.outcome.duration_ms));
    assert(e.subrange(60, 64) =~= spec_u32_to_le_bytes(m.outcome.accuracy_bps));
}

} // verus!
