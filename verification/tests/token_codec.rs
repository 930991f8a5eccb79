use base64::engine::general_purpose::URL_SAFE;
use base64::Engine;
use media_gateway::encryption::{decrypt, decrypt_at, encrypt, encrypt_at, TokenError};

#[test]
fn test_encrypt_decrypt_no_expiry() {
    let key = "testkey";
    let text = "Hello, World!";
    let encrypted = encrypt(text, key, None);
    let decrypted = decrypt(&encrypted, key).unwrap();
    assert_eq!(decrypted, text);
}

#[test]
fn test_encrypt_decrypt_with_expiry() {
    let key = "testkey";
    let text = "Hello, World!";
    let encrypted = encrypt(text, key, Some(1));
    let decrypted = decrypt(&encrypted, key).unwrap();
    assert_eq!(decrypted, text);
}

#[test]
fn test_json_payload() {
    let key = "overflow";
    let payload = r#"{"url":"https://example.com","author":"test","type":"video"}"#;
    let encrypted = encrypt(payload, key, Some(360));
    let decrypted = decrypt(&encrypted, key).unwrap();
    assert_eq!(decrypted, payload);
}

#[test]
fn token_text_is_exact() {
    // "Hi" xor "k1" = [0x23, 0x58], which base64 writes as "I1g=".
    assert_eq!(encrypt_at("Hi", "k1", None, 0), "I1g=");
    // The same text and key always give the same token.
    assert_eq!(encrypt("Hi", "k1", None), "I1g=");
    assert_eq!(decrypt_at("I1g=", "k1", 5).unwrap(), "Hi");
}

#[test]
fn token_uses_the_url_safe_alphabet() {
    // [0xfb, 0xff] xor [0x00] needs the symbols '-' and '_'.
    let text = "\u{0}";
    let token = encrypt_at(text, "\u{7f}", None, 0);
    assert_eq!(token, "fw==");
    let token = encrypt_at("~~~", "A", None, 0);
    assert_eq!(token, "Pz8_");
    assert_eq!(decrypt_at("Pz8_", "A", 0).unwrap(), "~~~");
}

#[test]
fn stamp_is_absolute_seconds() {
    // Made at second 1000 for 2 minutes: the text behind the token is "1120|x".
    let token = encrypt_at("x", "k", Some(2), 1000);
    let plain: Vec<u8> = "1120|x".bytes().map(|b| b ^ b'k').collect();
    assert_eq!(decrypt_at(&token, "k", 1120).unwrap(), "x");
    assert_eq!(decrypt_at(&token, "k", 1121), Err(TokenError::Expired));
    assert_eq!(plain.len(), 6);
    assert_eq!(token.len(), 8);
}

#[test]
fn zero_minutes_expires_one_second_later() {
    let token = encrypt_at("payload", "key", Some(0), 500);
    assert_eq!(decrypt_at(&token, "key", 500).unwrap(), "payload");
    assert_eq!(decrypt_at(&token, "key", 501), Err(TokenError::Expired));
}

#[test]
fn sixty_minutes_reads_back_at_once() {
    let token = encrypt_at("payload", "key", Some(60), 1_700_000_000);
    assert_eq!(decrypt_at(&token, "key", 1_700_000_000).unwrap(), "payload");
    assert_eq!(decrypt_at(&token, "key", 1_700_003_600).unwrap(), "payload");
    assert_eq!(
        decrypt_at(&token, "key", 1_700_003_601),
        Err(TokenError::Expired)
    );
}

#[test]
fn stamp_saturates() {
    let token = encrypt_at("p", "key", Some(u64::MAX), 10);
    assert_eq!(decrypt_at(&token, "key", u64::MAX).unwrap(), "p");
}

#[test]
fn bad_encoding_is_reported() {
    assert_eq!(decrypt_at("not base64!", "k", 0), Err(TokenError::BadEncoding));
    // Missing padding is not canonical.
    assert_eq!(decrypt_at("I1g", "k1", 0), Err(TokenError::BadEncoding));
    // The standard alphabet's '+' is no symbol here.
    assert_eq!(decrypt_at("Pz8+", "A", 0), Err(TokenError::BadEncoding));
}

#[test]
fn bad_text_is_reported() {
    // "_w==" is the byte 0xff; xor 'a' gives 0x9e, which is no UTF-8.
    assert_eq!(decrypt_at("_w==", "a", 0), Err(TokenError::BadText));
}

#[test]
fn text_with_a_pipe_but_no_number_is_returned_whole() {
    let token = encrypt_at("a|b", "key", None, 0);
    assert_eq!(decrypt_at(&token, "key", 99).unwrap(), "a|b");
    let token = encrypt_at("|b", "key", None, 0);
    assert_eq!(decrypt_at(&token, "key", 99).unwrap(), "|b");
    let token = encrypt_at("12a|b", "key", None, 0);
    assert_eq!(decrypt_at(&token, "key", 99).unwrap(), "12a|b");
}

#[test]
fn text_that_begins_with_a_number_and_a_pipe_is_read_as_stamped() {
    let token = encrypt_at("5|x", "key", None, 0);
    assert_eq!(decrypt_at(&token, "key", 6), Err(TokenError::Expired));
    assert_eq!(decrypt_at(&token, "key", 5).unwrap(), "x");
    let token = encrypt_at("+7|y", "key", None, 0);
    assert_eq!(decrypt_at(&token, "key", 7).unwrap(), "y");
}

#[test]
fn round_trip_with_text_beyond_ascii() {
    let text = "héllo → wörld ✓";
    let token = encrypt_at(text, "clé", None, 0);
    assert_eq!(decrypt_at(&token, "clé", 1).unwrap(), text);
    let token = encrypt_at(text, "clé", Some(1), 100);
    assert_eq!(decrypt_at(&token, "clé", 160).unwrap(), text);
}

#[test]
fn concrete_scenario_with_two_keys() {
    let payload = r#"{"url":"https://cdn.example/a.mp4","author":"alice","type":"video"}"#;
    let token = encrypt(payload, "k1", None);
    assert_eq!(decrypt(&token, "k1").unwrap(), payload);
    match decrypt(&token, "k2") {
        Ok(text) => assert_ne!(text, payload),
        Err(e) => assert_ne!(e, TokenError::BadEncoding),
    }
}

#[test]
fn changing_one_byte_never_reads_as_what_was_sealed() {
    let payload = "Hello, World!";
    let token = encrypt_at(payload, "testkey", None, 0);
    let bytes = token.as_bytes();
    for at in 0..bytes.len() {
        for flip in 0..8 {
            let mut forged = bytes.to_vec();
            forged[at] ^= 1 << flip;
            if let Ok(forged) = String::from_utf8(forged) {
                match decrypt_at(&forged, "testkey", 0) {
                    Ok(text) => assert_ne!(text, payload),
                    Err(_) => {}
                }
            }
        }
    }
}

#[test]
fn error_messages() {
    assert_eq!(TokenError::BadEncoding.message(), "Base64 decode failed");
    assert_eq!(TokenError::BadText.message(), "UTF-8 decode failed");
    assert_eq!(TokenError::Expired.message(), "Encrypted data has expired");
}

#[test]
fn a_changed_stamp_leaves_the_payload() {
    // Made for "x" at second 15 for zero minutes: the text behind it is "15|x".
    let token = encrypt_at("x", "k", Some(0), 15);
    assert_eq!(token, "Wl4XEw==");
    assert_eq!(decrypt_at(&token, "k", 16), Err(TokenError::Expired));
    // One changed symbol turns the stamp into 17 and leaves the payload alone.
    assert_eq!(decrypt_at("WlwXEw==", "k", 16).unwrap(), "x");
}

#[test]
fn another_key_does_not_read_the_text() {
    let token = encrypt_at("plain text", "k1", None, 0);
    for other in ["k2", "K1", "k", "1k", "k1x"] {
        match decrypt_at(&token, other, 0) {
            Ok(text) => assert_ne!(text, "plain text"),
            Err(_) => {}
        }
    }
    // A key that repeats the same bytes is the same key.
    assert_eq!(decrypt_at(&token, "k1k1", 0).unwrap(), "plain text");
}

#[test]
fn a_forged_stamped_token_reads_only_behind_another_stamp() {
    // The text behind the token is "15|x". Every token that differs from it
    // in one symbol is tried.
    let token = encrypt_at("x", "k", Some(0), 15);
    let symbols = b"ABCDEFGHIJKLMNOPQRSTUVWXYZabcdefghijklmnopqrstuvwxyz0123456789-_=";
    let mut read_again = 0;
    for at in 0..token.len() {
        for &symbol in symbols.iter() {
            let mut bytes = token.clone().into_bytes();
            if bytes[at] == symbol {
                continue;
            }
            bytes[at] = symbol;
            let forged = String::from_utf8(bytes).unwrap();
            // Once every stamp of two places has passed, none reads as the text.
            assert_ne!(decrypt_at(&forged, "k", 100), Ok("x".to_string()));
            // Before that it does only where the text behind it is another
            // stamp in front of the same payload.
            if decrypt_at(&forged, "k", 0) == Ok("x".to_string()) {
                read_again += 1;
                let behind: Vec<u8> = URL_SAFE
                    .decode(&forged)
                    .unwrap()
                    .iter()
                    .map(|b| b ^ b'k')
                    .collect();
                let behind = String::from_utf8(behind).unwrap();
                let (stamp, payload) = behind.split_once('|').unwrap();
                assert_eq!(payload, "x");
                assert_ne!(stamp, "15");
                let deadline: u64 = stamp.parse().unwrap();
                assert_eq!(decrypt_at(&forged, "k", deadline), Ok("x".to_string()));
                assert_eq!(decrypt_at(&forged, "k", deadline + 1), Err(TokenError::Expired));
            }
        }
    }
    assert!(read_again > 0);
}

#[test]
fn a_token_for_zero_minutes_is_expired_a_second_later() {
    let token = encrypt_at("p|q", "key", Some(0), 500);
    assert_eq!(decrypt_at(&token, "key", 500), Ok("p|q".to_string()));
    for later in [501, 502, 10_000, u64::MAX] {
        assert_eq!(decrypt_at(&token, "key", later), Err(TokenError::Expired));
    }
}

#[test]
fn a_token_for_an_hour_reads_back_whole_during_the_hour() {
    for text in ["plain", "a|b", "|", "7|x", "", "12|34|56"] {
        let token = encrypt_at(text, "key", Some(60), 1_000);
        for read in [1_000, 1_001, 4_599, 4_600] {
            assert_eq!(decrypt_at(&token, "key", read), Ok(text.to_string()));
        }
        assert_eq!(decrypt_at(&token, "key", 4_601), Err(TokenError::Expired));
    }
    // Close to the end of time the stamp stays at the last second.
    let token = encrypt_at("x", "key", Some(60), u64::MAX - 5);
    assert_eq!(decrypt_at(&token, "key", u64::MAX), Ok("x".to_string()));
}

#[test]
fn the_bytes_behind_a_token_follow_the_text() {
    let key = "k3y";
    let p = "hello world";
    for at in 0..p.len() {
        let mut q = p.as_bytes().to_vec();
        q[at] ^= 0x15;
        let q = String::from_utf8(q).unwrap();
        let a = URL_SAFE.decode(encrypt_at(p, key, None, 0)).unwrap();
        let b = URL_SAFE.decode(encrypt_at(&q, key, None, 0)).unwrap();
        assert_eq!(a.len(), p.len());
        assert_eq!(b.len(), p.len());
        for j in 0..a.len() {
            if j == at {
                assert_eq!(a[j] ^ b[j], p.as_bytes()[j] ^ q.as_bytes()[j]);
                assert_eq!(a[j] ^ b[j], 0x15);
            } else {
                assert_eq!(a[j], b[j]);
            }
        }
    }
}
