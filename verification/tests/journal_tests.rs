use zerotrust::journal::{decode_journal, encode_journal, Journal, RoundOutcome, JOURNAL_LEN};

fn sample_journal() -> Journal {
    let mut pubkey = [0u8; 32];
    for (i, b) in pubkey.iter_mut().enumerate() {
        *b = i as u8;
    }
    Journal {
        challenge_id: 0xdeadbeef,
        player_pubkey: pubkey,
        bot_config_id: 7,
        outcome: RoundOutcome {
            threats_cured: 3,
            systems_destroyed: 1,
            data_leaked_x100: 2_500,
            score: 10_026,
            duration_ms: 90_000,
            accuracy_bps: 7_500,
        },
    }
}

#[test]
fn encode_is_64_bytes() {
    let bytes = encode_journal(&sample_journal());
    assert_eq!(bytes.len(), JOURNAL_LEN);
}

#[test]
fn encode_layout_is_little_endian_in_field_order() {
    let j = sample_journal();
    let bytes = encode_journal(&j);
    assert_eq!(&bytes[0..4], &0xdeadbeefu32.to_le_bytes());
    assert_eq!(&bytes[4..36], &j.player_pubkey);
    assert_eq!(&bytes[36..40], &7u32.to_le_bytes());
    assert_eq!(&bytes[40..44], &3u32.to_le_bytes());
    assert_eq!(&bytes[44..48], &1u32.to_le_bytes());
    assert_eq!(&bytes[48..52], &2_500u32.to_le_bytes());
    assert_eq!(&bytes[52..56], &10_026u32.to_le_bytes());
    assert_eq!(&bytes[56..60], &90_000u32.to_le_bytes());
    assert_eq!(&bytes[60..64], &7_500u32.to_le_bytes());
}

#[test]
fn round_trip_reproduces_every_field() {
    let j = sample_journal();
    let bytes = encode_journal(&j);
    let back = decode_journal(bytes.as_slice()).expect("64 bytes must decode");
    assert_eq!(back.challenge_id, j.challenge_id);
    assert_eq!(back.player_pubkey, j.player_pubkey);
    assert_eq!(back.bot_config_id, j.bot_config_id);
    assert_eq!(back.outcome.threats_cured, j.outcome.threats_cured);
    assert_eq!(back.outcome.systems_destroyed, j.outcome.systems_destroyed);
    assert_eq!(back.outcome.data_leaked_x100, j.outcome.data_leaked_x100);
    assert_eq!(back.outcome.score, j.outcome.score);
    assert_eq!(back.outcome.duration_ms, j.outcome.duration_ms);
    assert_eq!(back.outcome.accuracy_bps, j.outcome.accuracy_bps);
}

#[test]
fn decode_rejects_wrong_lengths() {
    assert!(decode_journal(&[0u8; 0]).is_none());
    assert!(decode_journal(&[0u8; 63]).is_none());
    assert!(decode_journal(&[0u8; 65]).is_none());
    assert!(decode_journal(&[0u8; 128]).is_none());
    assert!(decode_journal(&[0u8; 64]).is_some());
}
