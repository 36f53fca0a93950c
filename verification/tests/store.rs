use p2p_chat::store::{IdentityStep, PeerId, identity_step, peer_id_from_hex, peer_id_hex};

fn sample() -> PeerId {
    let mut bytes = [0u8; 32];
    for (i, b) in bytes.iter_mut().enumerate() {
        *b = (i as u8).wrapping_mul(73).wrapping_add(200);
    }
    PeerId::from_bytes(bytes)
}

#[test]
fn peer_id_hex_round_trips() {
    let id = sample();
    let hex = peer_id_hex(id);
    assert_eq!(hex.len(), 64);
    assert_eq!(peer_id_from_hex(&hex), Some(id));
    assert_eq!(peer_id_from_hex(&hex.to_uppercase()), Some(id));
    assert!(peer_id_from_hex("zz").is_none());
    assert!(peer_id_from_hex(&hex[..63]).is_none());
}

#[test]
fn peer_id_hex_is_lowercase_two_digits_per_byte() {
    let mut bytes = [0u8; 32];
    bytes[0] = 0xab;
    bytes[1] = 0x05;
    bytes[31] = 0xff;
    let hex = peer_id_hex(PeerId::from_bytes(bytes));
    assert_eq!(&hex[..4], "ab05");
    assert_eq!(&hex[62..], "ff");
    assert_eq!(hex.len(), 64);
}

#[test]
fn peer_id_from_hex_rejects_a_plus_sign() {
    let hex = format!("+a{}", "0".repeat(62));
    assert!(peer_id_from_hex(&hex).is_none());
}

#[test]
fn peer_id_from_hex_rejects_non_ascii_of_the_right_byte_length() {
    let hex = format!("é{}", "0".repeat(62));
    assert_eq!(hex.len(), 64);
    assert!(peer_id_from_hex(&hex).is_none());
}

#[test]
fn peer_id_as_bytes_gives_back_the_bytes() {
    let id = sample();
    assert_eq!(PeerId::from_bytes(id.as_bytes()), id);
}

#[test]
fn identity_is_loaded_or_generated() {
    assert!(matches!(identity_step(Some(7u8)), IdentityStep::Use(7)));
    assert!(matches!(identity_step::<u8>(None), IdentityStep::GenerateAndSave));
}
