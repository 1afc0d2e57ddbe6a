use base64::engine::general_purpose::STANDARD;
use base64::Engine;
use google_tts_api::services::media_source::{GoogleTtsMediaSource, MediaSourceError};

fn padding_len(text: &str) -> usize {
    if text.ends_with("==") {
        2
    } else if text.ends_with('=') {
        1
    } else {
        0
    }
}

fn decode_fails(text: &str) -> bool {
    matches!(GoogleTtsMediaSource::new(text.to_string()), Err(MediaSourceError::Decode))
}

#[test]
fn decodes_a_padded_payload() {
    let source = GoogleTtsMediaSource::new("YXNkZg==".to_string()).unwrap();
    assert_eq!(source.audio_data, b"asdf");
    assert_eq!(source.position, 0);
    assert_eq!(source.byte_len(), Some(4));
}

#[test]
fn decodes_each_padding_form() {
    let cases: [(&str, &[u8]); 7] = [
        ("", b""),
        ("Zg==", b"f"),
        ("Zm8=", b"fo"),
        ("Zm9v", b"foo"),
        ("Zm9vYg==", b"foob"),
        ("Zm9vYmE=", b"fooba"),
        ("Zm9vYmFy", b"foobar"),
    ];
    for (text, bytes) in cases {
        let source = GoogleTtsMediaSource::new(text.to_string()).unwrap();
        assert_eq!(source.audio_data, bytes);
        assert_eq!(source.position, 0);
        assert_eq!(source.byte_len(), Some(bytes.len() as u64));
        assert_eq!(bytes.len(), 3 * (text.len() / 4) - padding_len(text));
    }
}

#[test]
fn decodes_the_last_letters_of_the_alphabet() {
    let source = GoogleTtsMediaSource::new("+/+/".to_string()).unwrap();
    assert_eq!(source.audio_data, [0xfb, 0xff, 0xbf]);
    let source = GoogleTtsMediaSource::new("AAAA".to_string()).unwrap();
    assert_eq!(source.audio_data, [0, 0, 0]);
}

#[test]
fn decoded_length_follows_the_length_of_the_text() {
    for len in (0usize..=70).chain([1021, 1022, 1023, 1024, 1025, 1536, 3000, 4097]) {
        let data: Vec<u8> = (0..len).map(|i| (i * 7 + 3) as u8).collect();
        let text = STANDARD.encode(&data);
        let source = GoogleTtsMediaSource::new(text.clone()).unwrap();
        assert_eq!(source.audio_data, data);
        assert_eq!(source.position, 0);
        assert_eq!(text.len() % 4, 0);
        assert_eq!(source.byte_len(), Some((3 * (text.len() / 4) - padding_len(&text)) as u64));
    }
}

#[test]
fn invalid_characters_are_a_decode_error() {
    for text in ["Zm9v!A==", "Zm 9v", "Zm9v\n", " Zm9v", "Zm9v ", "Zm-v", "Zm_v", "Zm9\u{e9}", "****"] {
        assert!(decode_fails(text), "{:?}", text);
    }
}

#[test]
fn wrong_padding_is_a_decode_error() {
    for text in [
        "Z", "Zg", "Zg=", "Zm8", "Zm9vY", "Zm9vYg", "Zm9vYmE", "=", "==", "===", "====", "Z===",
        "Zg===", "Zg==Zg==", "Zm8=Zm9v", "Zg==Zm9v", "Zm9v=", "Zm9v==", "Zm9v====", "=Zm9", "Z=g=",
        "Zm=8",
    ] {
        assert!(decode_fails(text), "{:?}", text);
    }
}

#[test]
fn trailing_bits_are_a_decode_error() {
    for text in ["Zh==", "Zm9=", "Zm9vYh==", "Zm9vYmF="] {
        assert!(decode_fails(text), "{:?}", text);
    }
}

#[test]
fn padding_inside_a_long_payload_is_a_decode_error() {
    let data = vec![0x5au8; 3000];
    let good = STANDARD.encode(&data);
    for at in [0usize, 4, 1020, 1024, 1028, 2048, 3992] {
        let mut text = good.clone();
        text.replace_range(at..at + 4, "Zg==");
        assert!(decode_fails(&text), "{}", at);
        let mut text = good.clone();
        text.replace_range(at + 3..at + 4, " ");
        assert!(decode_fails(&text), "{}", at);
    }
    let mut text = good.clone();
    text.push_str("Zg==");
    assert!(GoogleTtsMediaSource::new(text).is_ok());
    let mut text = good.clone();
    text.insert_str(0, "Zg==");
    assert!(decode_fails(&text));
    let mut text = good;
    text.push('Z');
    assert!(decode_fails(&text));
}

#[test]
fn whatever_decodes_has_whole_groups_and_the_expected_length() {
    let letters = ['A', 'Q', 'g', '/', '=', ' ', '-'];
    let mut texts = vec![String::new()];
    let mut frontier = vec![String::new()];
    for _ in 0..5 {
        let mut next = Vec::new();
        for text in &frontier {
            for letter in letters {
                let mut longer = text.clone();
                longer.push(letter);
                next.push(longer);
            }
        }
        texts.extend(next.iter().cloned());
        frontier = next;
    }
    let mut decoded = 0;
    for text in texts {
        let reference = STANDARD.decode(text.as_bytes());
        match GoogleTtsMediaSource::new(text.clone()) {
            Ok(source) => {
                decoded += 1;
                assert_eq!(text.len() % 4, 0, "{:?}", text);
                assert_eq!(
                    source.audio_data.len(),
                    3 * (text.len() / 4) - padding_len(&text),
                    "{:?}",
                    text
                );
                assert_eq!(Ok(source.audio_data), reference, "{:?}", text);
                assert_eq!(source.position, 0);
            }
            Err(e) => {
                assert_eq!(e, MediaSourceError::Decode);
                assert!(reference.is_err(), "{:?}", text);
            }
        }
    }
    assert!(decoded > 100);
}

#[test]
fn decoding_is_repeatable() {
    let first = GoogleTtsMediaSource::new("Zm9vYmE=".to_string()).unwrap();
    let second = GoogleTtsMediaSource::new("Zm9vYmE=".to_string()).unwrap();
    assert_eq!(first.audio_data, second.audio_data);
    assert!(decode_fails("Zm9vYmE"));
    assert!(decode_fails("Zm9vYmE"));
}

#[test]
fn from_decoded_wraps_either_outcome() {
    let source = GoogleTtsMediaSource::from_decoded(Ok(vec![5, 6, 7])).unwrap();
    assert_eq!(source.audio_data, [5, 6, 7]);
    assert_eq!(source.position, 0);

    let source = GoogleTtsMediaSource::from_decoded(Ok(Vec::new())).unwrap();
    assert_eq!(source.byte_len(), Some(0));

    let failure = std::io::Error::new(std::io::ErrorKind::InvalidData, "bad payload");
    assert!(matches!(
        GoogleTtsMediaSource::from_decoded(Err(failure)),
        Err(MediaSourceError::Decode)
    ));
    let failure = std::io::Error::new(std::io::ErrorKind::Other, "anything else");
    assert!(matches!(
        GoogleTtsMediaSource::from_decoded(Err(failure)),
        Err(MediaSourceError::Decode)
    ));
}
