use ff78_launcher::channel::{read_slot, write_slot, Slot, REGION_SIZE, SLOT_SIZE};
use ff78_launcher::codec::{decode, decode_text, encode, encode_text, CodecError};
use ff78_launcher::context::encode_field;
use ff78_launcher::launch::{field_id, ConfigField, GameType, StoreType};

const ALL_GAMES: [GameType; 3] = [
    GameType::FF7(StoreType::Standard),
    GameType::FF7(StoreType::EStore),
    GameType::FF8,
];

const ALL_FIELDS: [ConfigField; 8] = [
    ConfigField::LocaleDataDir,
    ConfigField::UserSaveDir,
    ConfigField::DocDir,
    ConfigField::InstallDir,
    ConfigField::GameVersion,
    ConfigField::DisableCloud,
    ConfigField::BgPauseEnabled,
    ConfigField::EndUserInfo,
];

#[test]
fn encode_writes_id_length_units_and_terminator() {
    let bytes = encode(13, &vec![0x0061, 0x1234], 64).unwrap();
    assert_eq!(bytes, vec![13, 2, 0, 0, 0, 0x61, 0x00, 0x34, 0x12, 0]);
}

#[test]
fn encode_empty_payload() {
    assert_eq!(encode(9, &vec![], 6).unwrap(), vec![9, 0, 0, 0, 0, 0]);
}

#[test]
fn encode_counts_code_units_not_bytes() {
    // U+1D11E takes two UTF-16 code units; é takes one.
    let bytes = encode_text(1, "é\u{1D11E}", 64).unwrap();
    assert_eq!(bytes, vec![1, 3, 0, 0, 0, 0xE9, 0x00, 0x34, 0xD8, 0x1E, 0xDD, 0]);
}

#[test]
fn encode_fits_exactly_at_capacity() {
    assert!(encode(1, &vec![7], 8).is_ok());
    assert_eq!(encode(1, &vec![7], 7), Err(CodecError::RecordTooLarge));
}

#[test]
fn encode_fails_closed_when_record_overruns_capacity() {
    for n in 0..20usize {
        let payload = vec![0x41u16; n];
        for capacity in 0..(2 * n + 6) {
            assert_eq!(encode(3, &payload, capacity), Err(CodecError::RecordTooLarge));
        }
        assert_eq!(encode(3, &payload, 2 * n + 6).unwrap().len(), 2 * n + 6);
    }
    assert_eq!(encode_text(3, "lang-en", 19), Err(CodecError::RecordTooLarge));
}

#[test]
fn decode_reads_a_record_followed_by_other_bytes() {
    let m = decode(&[12, 1, 0, 0, 0, 0x41, 0x00, 0, 0xFF, 0xFF]).unwrap();
    assert_eq!(m.field_id, 12);
    assert_eq!(m.payload, vec![0x41]);
}

#[test]
fn decode_refuses_length_past_slot() {
    assert_eq!(decode(&[12, 3, 0, 0, 0, 0x41, 0, 0x42, 0, 0]).unwrap_err(), CodecError::ProtocolViolation);
    assert_eq!(decode(&[12, 0xFF, 0xFF, 0xFF, 0xFF, 0]).unwrap_err(), CodecError::ProtocolViolation);
    assert_eq!(decode(&[12, 0, 0, 0]).unwrap_err(), CodecError::ProtocolViolation);
    assert_eq!(decode(&[]).unwrap_err(), CodecError::ProtocolViolation);
}

#[test]
fn decode_refuses_missing_terminator() {
    assert_eq!(decode(&[12, 1, 0, 0, 0, 0x41, 0, 7]).unwrap_err(), CodecError::ProtocolViolation);
}

#[test]
fn decode_text_refuses_invalid_utf16() {
    // A lone high surrogate.
    assert_eq!(decode_text(&[5, 1, 0, 0, 0, 0x00, 0xD8, 0]), Err(CodecError::ProtocolViolation));
}

#[test]
fn round_trip_for_every_game_and_field() {
    for game in ALL_GAMES {
        for field in ALL_FIELDS {
            let text = "C:\\Users\\Jöhn\\Documents \u{1F600}";
            match encode_field(game, field, text, SLOT_SIZE) {
                None => assert!(field_id(game, field).is_none()),
                Some(bytes) => {
                    let mut slot = bytes.unwrap();
                    slot.resize(SLOT_SIZE, 0xAA);
                    let (id, back) = decode_text(&slot).unwrap();
                    assert_eq!(Some(id), field_id(game, field));
                    assert_eq!(back, text);
                }
            }
        }
    }
}

#[test]
fn slots_are_written_and_read_in_place() {
    let mut region = vec![0u8; REGION_SIZE];
    let record = encode_text(13, "lang-fr", SLOT_SIZE).unwrap();
    assert!(write_slot(&mut region, Slot::Launcher, &record));
    assert_eq!(&region[SLOT_SIZE..SLOT_SIZE + record.len()], &record[..]);
    assert!(region[..SLOT_SIZE].iter().all(|b| *b == 0));
    let m = read_slot(&region, Slot::Launcher).unwrap();
    assert_eq!(m.field_id, 13);
    assert_eq!(m.payload, "lang-fr".encode_utf16().collect::<Vec<u16>>());
    // The game slot is all zeros: an empty record of id 0.
    let g = read_slot(&region, Slot::Game).unwrap();
    assert_eq!(g.field_id, 0);
    assert!(g.payload.is_empty());
}

#[test]
fn write_slot_refuses_wrong_sizes() {
    let mut small = vec![0u8; 16];
    assert!(!write_slot(&mut small, Slot::Game, &[1, 0, 0, 0, 0, 0]));
    assert_eq!(small, vec![0u8; 16]);
    let mut region = vec![0u8; REGION_SIZE];
    assert!(!write_slot(&mut region, Slot::Game, &vec![1u8; SLOT_SIZE + 1]));
    assert!(region.iter().all(|b| *b == 0));
}

#[test]
fn read_slot_refuses_overlong_game_record() {
    let mut region = vec![0u8; REGION_SIZE];
    // Declares 0x8000 code units: 0x10000 bytes of payload, past the slot.
    assert!(write_slot(&mut region, Slot::Game, &[4, 0x00, 0x80, 0, 0]));
    assert_eq!(read_slot(&region, Slot::Game).unwrap_err(), CodecError::ProtocolViolation);
}
