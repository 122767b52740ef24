use networker::auth::{decode_auth, encode_auth};
use networker::codec::{
    decode_check_uid, decode_get_audio, decode_ping, encode_check_uid, encode_get_audio,
    encode_ping, Decoded,
};
use networker::{AchievementId, CheckUidResponse, ConnectionConfig};

fn credentials(user: &str, secret: &str) -> ConnectionConfig {
    ConnectionConfig {
        host: String::from("x"),
        port: 443,
        user: String::from(user),
        secret: String::from(secret),
    }
}

fn id_of(byte: u8) -> AchievementId {
    [byte; 20]
}

fn list_frame(status: u8, ids: &[AchievementId]) -> Vec<u8> {
    let mut frame = vec![status, ids.len() as u8];
    for id in ids {
        frame.extend_from_slice(id);
    }
    frame
}

#[test]
fn check_uid_request_is_opcode_then_uid() {
    let uid = [0x04, 0xa1, 0xb2, 0xc3, 0xd4, 0xe5, 0xf6];
    assert_eq!(encode_check_uid(&uid), vec![0x00, 0x04, 0xa1, 0xb2, 0xc3, 0xd4, 0xe5, 0xf6]);
}

#[test]
fn check_uid_request_of_empty_uid_is_the_opcode() {
    assert_eq!(encode_check_uid(&[]), vec![0x00]);
}

#[test]
fn get_audio_request_is_opcode_then_id() {
    let mut id = [0u8; 20];
    for (i, byte) in id.iter_mut().enumerate() {
        *byte = i as u8 + 1;
    }
    let request = encode_get_audio(&id);
    assert_eq!(request.len(), 21);
    assert_eq!(request[0], 0x01);
    assert_eq!(&request[1..], &id[..]);
}

#[test]
fn ping_request_is_one_byte() {
    assert_eq!(encode_ping(), vec![0x02]);
}

#[test]
fn check_uid_response_needs_a_status_byte() {
    assert_eq!(decode_check_uid(&[]), Decoded::Incomplete { missing: 1 });
}

#[test]
fn check_uid_response_error() {
    assert_eq!(
        decode_check_uid(&[0x00]),
        Decoded::Complete { value: CheckUidResponse::Error {}, consumed: 1 }
    );
}

#[test]
fn check_uid_response_throttled() {
    assert_eq!(
        decode_check_uid(&[0x02]),
        Decoded::Complete { value: CheckUidResponse::Throttle {}, consumed: 1 }
    );
}

#[test]
fn check_uid_response_needs_a_count_after_the_status() {
    assert_eq!(decode_check_uid(&[0x01]), Decoded::Incomplete { missing: 1 });
    assert_eq!(decode_check_uid(&[0xff]), Decoded::Incomplete { missing: 1 });
}

#[test]
fn check_uid_response_needs_all_ids() {
    assert_eq!(decode_check_uid(&[0x01, 0x02]), Decoded::Incomplete { missing: 40 });
    let mut partial = vec![0x01, 0x02];
    partial.extend_from_slice(&[7u8; 39]);
    assert_eq!(decode_check_uid(&partial), Decoded::Incomplete { missing: 1 });
}

#[test]
fn check_uid_response_with_no_ids() {
    assert_eq!(
        decode_check_uid(&[0x01, 0x00]),
        Decoded::Complete { value: CheckUidResponse::Success { achievements: vec![] }, consumed: 2 }
    );
}

#[test]
fn check_uid_round_trip_with_two_ids() {
    let uid = [1u8, 2, 3, 4, 5, 6, 7];
    let request = encode_check_uid(&uid);
    assert_eq!(request[0], 0x00);
    assert_eq!(&request[1..], &uid[..]);

    let mut first = [0u8; 20];
    let mut second = [0u8; 20];
    for i in 0..20 {
        first[i] = i as u8;
        second[i] = 0xf0 + (i as u8 % 16);
    }
    let frame = list_frame(0x01, &[first, second]);
    assert_eq!(frame[1], 2);
    assert_eq!(
        decode_check_uid(&frame),
        Decoded::Complete {
            value: CheckUidResponse::Success { achievements: vec![first, second] },
            consumed: 42,
        }
    );
}

#[test]
fn check_uid_count_byte_is_the_number_of_ids() {
    for n in [0usize, 1, 2, 17, 254, 255] {
        let ids: Vec<AchievementId> = (0..n).map(|i| id_of(i as u8)).collect();
        let frame = list_frame(0x03, &ids);
        assert_eq!(frame[1] as usize, n);
        match decode_check_uid(&frame) {
            Decoded::Complete { value: CheckUidResponse::Success { achievements }, consumed } => {
                assert_eq!(achievements.len(), n);
                assert_eq!(achievements, ids);
                assert_eq!(consumed, 2 + 20 * n);
            }
            other => panic!("unexpected {:?}", other),
        }
    }
}

#[test]
fn check_uid_response_ignores_what_follows_the_frame() {
    let mut bytes = list_frame(0x01, &[id_of(9)]);
    bytes.extend_from_slice(&[0xaa, 0xbb]);
    assert_eq!(
        decode_check_uid(&bytes),
        Decoded::Complete {
            value: CheckUidResponse::Success { achievements: vec![id_of(9)] },
            consumed: 22,
        }
    );
    assert_eq!(
        decode_check_uid(&[0x00, 0x05, 0x06]),
        Decoded::Complete { value: CheckUidResponse::Error {}, consumed: 1 }
    );
}

#[test]
fn get_audio_response_needs_a_status_byte() {
    assert_eq!(decode_get_audio(&[]), Decoded::Incomplete { missing: 1 });
}

#[test]
fn get_audio_response_absent() {
    assert_eq!(decode_get_audio(&[0x00]), Decoded::Complete { value: None, consumed: 1 });
}

#[test]
fn get_audio_response_needs_the_length_field() {
    assert_eq!(decode_get_audio(&[0x01]), Decoded::Incomplete { missing: 4 });
    assert_eq!(decode_get_audio(&[0x01, 0x03, 0x00]), Decoded::Incomplete { missing: 2 });
}

#[test]
fn get_audio_response_with_payload() {
    assert_eq!(
        decode_get_audio(&[0x01, 0x03, 0x00, 0x00, 0x00, 0xde, 0xad, 0xbf]),
        Decoded::Complete { value: Some(vec![0xde, 0xad, 0xbf]), consumed: 8 }
    );
}

#[test]
fn get_audio_response_with_empty_payload() {
    assert_eq!(
        decode_get_audio(&[0x07, 0x00, 0x00, 0x00, 0x00]),
        Decoded::Complete { value: Some(vec![]), consumed: 5 }
    );
}

#[test]
fn get_audio_length_is_little_endian() {
    assert_eq!(
        decode_get_audio(&[0x01, 0x01, 0x02, 0x00, 0x00]),
        Decoded::Incomplete { missing: 513 }
    );
    assert_eq!(
        decode_get_audio(&[0x01, 0x00, 0x00, 0x01, 0x00]),
        Decoded::Incomplete { missing: 65536 }
    );
    assert_eq!(
        decode_get_audio(&[0x01, 0x04, 0x03, 0x02, 0x01, 0xff]),
        Decoded::Incomplete { missing: 0x01020304 - 1 }
    );
    let mut frame = vec![0x01, 0x2c, 0x01, 0x00, 0x00];
    frame.extend_from_slice(&[0x5a; 300]);
    assert_eq!(
        decode_get_audio(&frame),
        Decoded::Complete { value: Some(vec![0x5a; 300]), consumed: 305 }
    );
}

#[test]
fn get_audio_short_payload_is_never_delivered() {
    let advertised_five_sent_three = [0x01, 0x05, 0x00, 0x00, 0x00, 1, 2, 3];
    assert_eq!(decode_get_audio(&advertised_five_sent_three), Decoded::Incomplete { missing: 2 });
}

#[test]
fn get_audio_payload_is_exactly_as_long_as_advertised() {
    let advertised_two_sent_four = [0x01, 0x02, 0x00, 0x00, 0x00, 1, 2, 3, 4];
    assert_eq!(
        decode_get_audio(&advertised_two_sent_four),
        Decoded::Complete { value: Some(vec![1, 2]), consumed: 7 }
    );
}

#[test]
fn ping_response_is_any_one_byte() {
    assert_eq!(decode_ping(&[]), Decoded::Incomplete { missing: 1 });
    assert_eq!(decode_ping(&[0x00]), Decoded::Complete { value: (), consumed: 1 });
    assert_eq!(decode_ping(&[0xff, 0x01]), Decoded::Complete { value: (), consumed: 1 });
}

#[test]
fn auth_request_is_length_then_user_colon_secret() {
    assert_eq!(encode_auth(&credentials("a", "b")), Some(vec![3, b'a', b':', b'b']));
    assert_eq!(
        encode_auth(&credentials("box", "s3cret")),
        Some(vec![10, b'b', b'o', b'x', b':', b's', b'3', b'c', b'r', b'e', b't'])
    );
}

#[test]
fn auth_request_of_empty_credentials_is_a_colon() {
    assert_eq!(encode_auth(&credentials("", "")), Some(vec![1, b':']));
}

#[test]
fn auth_request_counts_bytes_not_characters() {
    let request = encode_auth(&credentials("é", "ß"));
    assert_eq!(request, Some(vec![5, 0xc3, 0xa9, b':', 0xc3, 0x9f]));
}

#[test]
fn auth_request_of_the_longest_text_that_fits() {
    let user = "u".repeat(200);
    let secret = "s".repeat(54);
    let request = encode_auth(&credentials(&user, &secret)).unwrap();
    assert_eq!(request.len(), 256);
    assert_eq!(request[0], 255);
    assert_eq!(&request[1..201], user.as_bytes());
    assert_eq!(request[201], b':');
    assert_eq!(&request[202..], secret.as_bytes());
}

#[test]
fn auth_request_length_byte_counts_the_bytes_behind_it() {
    for (user, secret) in [("", ""), ("a", "b"), ("é", "ß"), ("device-17", "correct horse")] {
        let request = encode_auth(&credentials(user, secret)).unwrap();
        assert_eq!(request[0] as usize, request.len() - 1);
        assert_eq!(&request[1..], format!("{}:{}", user, secret).as_bytes());
    }
}

#[test]
fn auth_text_over_255_bytes_has_no_request() {
    assert_eq!(encode_auth(&credentials(&"u".repeat(200), &"s".repeat(100))), None);
    assert_eq!(encode_auth(&credentials(&"u".repeat(255), "")), None);
    assert_eq!(encode_auth(&credentials("", &"s".repeat(255))), None);
    assert_eq!(encode_auth(&credentials(&"é".repeat(127), "")), Some({
        let mut frame = vec![255u8];
        frame.extend_from_slice("é".repeat(127).as_bytes());
        frame.push(b':');
        frame
    }));
    assert_eq!(encode_auth(&credentials(&"é".repeat(127), "x")), None);
}

#[test]
fn auth_verdict_accepts_only_one() {
    assert_eq!(decode_auth(&[]), Decoded::Incomplete { missing: 1 });
    assert_eq!(decode_auth(&[0x01]), Decoded::Complete { value: true, consumed: 1 });
    assert_eq!(decode_auth(&[0x00]), Decoded::Complete { value: false, consumed: 1 });
    assert_eq!(decode_auth(&[0x02]), Decoded::Complete { value: false, consumed: 1 });
    assert_eq!(decode_auth(&[0xff]), Decoded::Complete { value: false, consumed: 1 });
}
