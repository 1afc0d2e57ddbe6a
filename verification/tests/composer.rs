use google_tts_api::services::composer::GoogleTtsComposer;
use google_tts_api::services::media_source::MediaSourceError;
use google_tts_api::types::synthesize::SynthesizeResponse;

#[test]
fn composer_creates_a_source_only_asynchronously() {
    let mut composer = GoogleTtsComposer::new("Zm9vYmFy".to_string());
    assert!(composer.should_create_async());
    assert!(matches!(composer.create(), Err(MediaSourceError::Unsupported)));

    let source = composer.create_async().unwrap();
    assert_eq!(source.audio_data, b"foobar");
    assert_eq!(source.position, 0);
}

#[test]
fn composer_keeps_its_payload() {
    let mut composer = GoogleTtsComposer::new("Zm8=".to_string());
    let mut first = composer.create_async().unwrap();
    let mut buf = [0u8; 2];
    assert_eq!(first.read(&mut buf), 2);
    assert_eq!(first.position, 2);

    let second = composer.create_async().unwrap();
    assert_eq!(second.audio_data, b"fo");
    assert_eq!(second.position, 0);
    assert!(matches!(composer.create(), Err(MediaSourceError::Unsupported)));
    assert_eq!(composer.create_async().unwrap().audio_data, b"fo");
}

#[test]
fn composer_reports_a_payload_that_does_not_decode() {
    let mut composer = GoogleTtsComposer::new("not base64".to_string());
    assert!(matches!(composer.create_async(), Err(MediaSourceError::Decode)));
    assert!(matches!(composer.create_async(), Err(MediaSourceError::Decode)));
}

#[test]
fn composer_takes_the_audio_content_of_a_response() {
    let response = SynthesizeResponse { audioContent: "YXNkZg==".to_string() };
    let mut composer = GoogleTtsComposer::from_response(response);
    assert_eq!(composer.create_async().unwrap().audio_data, b"asdf");
}
