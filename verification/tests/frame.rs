use p2p_chat::frame::{
    ChatMessage, FrameError, HeaderStep, MAX_FRAME_PAYLOAD_SIZE, decode_frame, encode_frame,
    header_step, payload_len,
};

/// The JSON payload of a chat message, as the program's edge writes it.
fn json_of(msg: &ChatMessage) -> Vec<u8> {
    let mut map = serde_json::Map::new();
    map.insert("text".to_string(), serde_json::Value::String(msg.text.clone()));
    map.insert("timestamp".to_string(), serde_json::Value::from(msg.timestamp));
    serde_json::to_vec(&serde_json::Value::Object(map)).unwrap()
}

/// A chat message read back from a JSON payload.
fn message_of(payload: &[u8]) -> Result<ChatMessage, FrameError> {
    let value: serde_json::Value = serde_json::from_slice(payload).map_err(|_| FrameError::Json)?;
    let text = value.get("text").and_then(|t| t.as_str()).ok_or(FrameError::Json)?;
    let ts = value.get("timestamp").and_then(|t| t.as_u64()).ok_or(FrameError::Json)?;
    Ok(ChatMessage::new(text, ts))
}

fn encode_message(msg: &ChatMessage) -> Result<Vec<u8>, FrameError> {
    encode_frame(&json_of(msg))
}

fn decode_message(bytes: &[u8]) -> Result<ChatMessage, FrameError> {
    message_of(&decode_frame(bytes)?)
}

#[test]
fn encode_decode_round_trip() {
    let msg = ChatMessage::new("hello", 1_700_000_000);
    let bytes = encode_message(&msg).unwrap();
    assert_eq!(&bytes[..4], &(bytes.len() as u32 - 4).to_be_bytes());
    assert_eq!(decode_message(&bytes).unwrap(), msg);
}

#[test]
fn empty_text_round_trips() {
    let msg = ChatMessage::new("", 0);
    let bytes = encode_message(&msg).unwrap();
    assert_eq!(decode_message(&bytes).unwrap(), msg);
}

#[test]
fn decode_rejects_truncated_header() {
    assert_eq!(decode_frame(&[0, 0, 1]), Err(FrameError::UnexpectedEof));
}

#[test]
fn decode_rejects_truncated_payload() {
    let mut bytes = encode_message(&ChatMessage::new("hello", 1)).unwrap();
    bytes.pop();
    assert_eq!(decode_frame(&bytes), Err(FrameError::UnexpectedEof));
}

#[test]
fn decode_rejects_claimed_oversize() {
    let mut bytes = 2_000_000u32.to_be_bytes().to_vec();
    bytes.extend_from_slice(&[0; 8]);
    assert_eq!(
        decode_frame(&bytes),
        Err(FrameError::FrameTooLarge {
            size: 2_000_000,
            max: MAX_FRAME_PAYLOAD_SIZE
        })
    );
}

#[test]
fn encode_rejects_oversize_payload() {
    let text = "x".repeat(MAX_FRAME_PAYLOAD_SIZE + 10);
    let msg = ChatMessage::new(&text, 1);
    assert!(matches!(
        encode_message(&msg),
        Err(FrameError::FrameTooLarge { .. })
    ));
}

#[test]
fn decode_rejects_invalid_json() {
    let payload = b"not-json";
    let mut bytes = (payload.len() as u32).to_be_bytes().to_vec();
    bytes.extend_from_slice(payload);
    assert_eq!(decode_message(&bytes), Err(FrameError::Json));
}

#[test]
fn framed_bytes_are_length_prefixed_json() {
    let msg = ChatMessage::new("hi", 42);
    let bytes = encode_message(&msg).unwrap();
    let len = u32::from_be_bytes(bytes[..4].try_into().unwrap()) as usize;
    assert_eq!(len, bytes.len() - 4);
    let parsed = message_of(&bytes[4..]).unwrap();
    assert_eq!(parsed, msg);
}

#[test]
fn encode_prefixes_the_big_endian_length() {
    let payload = vec![7u8; 0x0102];
    let frame = encode_frame(&payload).unwrap();
    assert_eq!(&frame[..4], &[0, 0, 1, 2]);
    assert_eq!(&frame[4..], &payload[..]);
}

#[test]
fn encode_accepts_exactly_the_maximum() {
    let payload = vec![0u8; MAX_FRAME_PAYLOAD_SIZE];
    assert_eq!(encode_frame(&payload).unwrap().len(), MAX_FRAME_PAYLOAD_SIZE + 4);
    let payload = vec![0u8; MAX_FRAME_PAYLOAD_SIZE + 1];
    assert_eq!(
        encode_frame(&payload),
        Err(FrameError::FrameTooLarge {
            size: MAX_FRAME_PAYLOAD_SIZE + 1,
            max: MAX_FRAME_PAYLOAD_SIZE
        })
    );
}

#[test]
fn decode_ignores_bytes_after_the_frame() {
    let mut frame = encode_frame(b"abc").unwrap();
    frame.extend_from_slice(b"next");
    assert_eq!(decode_frame(&frame).unwrap(), b"abc".to_vec());
}

#[test]
fn header_steps() {
    assert_eq!(header_step(0, 0), HeaderStep::Closed);
    assert_eq!(header_step(2, 0), HeaderStep::Truncated);
    assert_eq!(header_step(1, 2), HeaderStep::Partial(3));
    assert_eq!(header_step(1, 3), HeaderStep::Complete);
}

#[test]
fn payload_len_checks_the_limit() {
    assert_eq!(payload_len(&[0, 16, 0, 0]), Ok(MAX_FRAME_PAYLOAD_SIZE));
    assert_eq!(
        payload_len(&[0, 16, 0, 1]),
        Err(FrameError::FrameTooLarge {
            size: MAX_FRAME_PAYLOAD_SIZE + 1,
            max: MAX_FRAME_PAYLOAD_SIZE
        })
    );
}

#[test]
fn header_read_in_single_bytes_completes_on_the_fourth() {
    assert_eq!(header_step(0, 1), HeaderStep::Partial(1));
    assert_eq!(header_step(1, 1), HeaderStep::Partial(2));
    assert_eq!(header_step(2, 1), HeaderStep::Partial(3));
    assert_eq!(header_step(3, 1), HeaderStep::Complete);
    assert_eq!(header_step(0, 4), HeaderStep::Complete);
}
