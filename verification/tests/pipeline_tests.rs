use cloud_transcription::client::{complete_transcription, complete_validation, OpenAIClient};
use cloud_transcription::config::OpenAIConfiguration;
use cloud_transcription::encoder::encode;
use cloud_transcription::errors::TranscriptionError;
use cloud_transcription::persistence::{
    cleanup_audio_paths, route_artifacts, RecordingPersistenceManager, RetentionPolicy,
    SaveModePolicy,
};

#[test]
fn test_encode_empty_is_header_only() {
    // The empty input yields exactly a 44-byte header with data size 0.
    let wav = encode(&vec![]);
    assert_eq!(wav.len(), 44);
    assert_eq!(&wav[0..4], b"RIFF");
    assert_eq!(&wav[4..8], &[36, 0, 0, 0]); // total - 8
    assert_eq!(&wav[8..12], b"WAVE");
    assert_eq!(&wav[12..16], b"fmt ");
    assert_eq!(&wav[40..44], &[0, 0, 0, 0]); // data size 0
}

#[test]
fn test_encode_exact_bytes() {
    let samples: Vec<i16> = vec![0, 1, -1, i16::MAX, i16::MIN];
    let wav = encode(&samples);
    let expected: Vec<u8> = vec![
        0x52, 0x49, 0x46, 0x46, // "RIFF"
        46, 0, 0, 0, // total bytes - 8 = 36 + 2 * 5
        0x57, 0x41, 0x56, 0x45, // "WAVE"
        0x66, 0x6d, 0x74, 0x20, // "fmt "
        16, 0, 0, 0, // sub-chunk size
        1, 0, // integer PCM
        1, 0, // mono
        0x80, 0x3e, 0, 0, // sample rate 16000
        0x00, 0x7d, 0, 0, // byte rate 32000
        2, 0, // block align
        16, 0, // bits per sample
        0x64, 0x61, 0x74, 0x61, // "data"
        10, 0, 0, 0, // data size = 2 * 5
        0x00, 0x00, // 0
        0x01, 0x00, // 1
        0xff, 0xff, // -1
        0xff, 0x7f, // 32767
        0x00, 0x80, // -32768
    ];
    assert_eq!(wav, expected);
}

#[test]
fn test_encode_matches_reference_wav_writer() {
    // The container must be byte-identical to what the reference WAV
    // library produces for the same mono 16 kHz 16-bit integer stream.
    let samples: Vec<i16> = vec![0, 12, -12, 440, -440, i16::MAX, i16::MIN, 7];
    let spec = hound::WavSpec {
        channels: 1,
        sample_rate: 16000,
        bits_per_sample: 16,
        sample_format: hound::SampleFormat::Int,
    };
    let mut reference: Vec<u8> = Vec::new();
    {
        let mut writer = hound::WavWriter::new(std::io::Cursor::new(&mut reference), spec)
            .expect("writer");
        for s in &samples {
            writer.write_sample(*s).expect("sample");
        }
        writer.finalize().expect("finalize");
    }
    assert_eq!(encode(&samples), reference);
}

#[test]
fn test_prepare_transcription_language_override() {
    let mut client = OpenAIClient::new("key".to_string()).unwrap();
    client.update_config(OpenAIConfiguration {
        api_key: "key".to_string(),
        model: "whisper-1".to_string(),
        language: Some("de".to_string()),
        temperature_centi: 30,
        prompt: Some("Context prompt".to_string()),
    });

    let samples: Vec<i16> = vec![3, -3, 9];

    // The per-call override takes precedence over the configured language.
    let req = client
        .prepare_transcription(&samples, Some("en".to_string()), false)
        .unwrap();
    assert_eq!(req.language, Some("en".to_string()));
    assert_eq!(req.model, "whisper-1");
    assert_eq!(req.file_name, "audio.wav");
    assert_eq!(req.prompt, Some("Context prompt".to_string()));
    assert_eq!(req.temperature_centi, 30);
    assert_eq!(req.audio_wav, encode(&samples));

    // Without an override the configured language is used.
    let req = client.prepare_transcription(&samples, None, false).unwrap();
    assert_eq!(req.language, Some("de".to_string()));
}

#[test]
fn test_prepare_transcription_requires_credential() {
    let mut client = OpenAIClient::new("key".to_string()).unwrap();
    let mut empty = OpenAIConfiguration::default();
    empty.model = "whisper-1".to_string();
    client.update_config(empty);

    let result = client.prepare_transcription(&vec![1, 2, 3], None, false);
    let err = result.unwrap_err();
    assert!(matches!(err, TranscriptionError::Configuration(_)));
    assert_eq!(err.message(), "OpenAI API key is not configured");
}

#[test]
fn test_validate_api_key_ready() {
    let client = OpenAIClient::new("key".to_string()).unwrap();
    assert!(client.validate_api_key_ready().is_ok());

    let mut client = client;
    client.update_config(OpenAIConfiguration::default());
    let err = client.validate_api_key_ready().unwrap_err();
    assert!(matches!(err, TranscriptionError::Configuration(_)));
    assert_eq!(err.message(), "OpenAI API key is empty");
}

#[test]
fn test_complete_transcription_outcomes() {
    // A success is the transcript verbatim: no trimming or normalization.
    let ok = complete_transcription(Ok("  hello World \n".to_string()));
    assert_eq!(ok.unwrap(), "  hello World \n");

    // A provider failure becomes one unified error carrying its message.
    let err = complete_transcription(Err("429 rate limited".to_string())).unwrap_err();
    assert!(matches!(err, TranscriptionError::Provider(_)));
    assert_eq!(err.message(), "429 rate limited");
}

#[test]
fn test_complete_validation_outcomes() {
    assert!(complete_validation(Ok(())).is_ok());
    let err = complete_validation(Err("401 unauthorized".to_string())).unwrap_err();
    assert!(matches!(err, TranscriptionError::Provider(_)));
    assert_eq!(err.message(), "401 unauthorized");
}

#[test]
fn test_error_messages_per_kind() {
    let encoding = TranscriptionError::Encoding("container framing failed".to_string());
    assert_eq!(encoding.message(), "container framing failed");
    let persistence = TranscriptionError::Persistence("disk write failed".to_string());
    assert_eq!(persistence.message(), "disk write failed");
}

#[test]
fn test_retention_cap_removes_exactly_oldest() {
    // Under a policy capping 2 recordings, inserting a third removes
    // exactly the oldest one.
    let mut manager = RecordingPersistenceManager::new(RetentionPolicy::KeepLast(2));

    let a1 = route_artifacts(
        SaveModePolicy::TextOnly,
        "recordings/1.wav".to_string(),
        "first".to_string(),
    );
    let removed = manager.insert_recording(1, SaveModePolicy::TextOnly, a1);
    assert!(removed.is_empty());

    let a2 = route_artifacts(
        SaveModePolicy::Both,
        "recordings/2.wav".to_string(),
        "second".to_string(),
    );
    let removed = manager.insert_recording(2, SaveModePolicy::Both, a2);
    assert!(removed.is_empty());
    assert_eq!(manager.record_count(), 2);

    let a3 = route_artifacts(
        SaveModePolicy::Both,
        "recordings/3.wav".to_string(),
        "third".to_string(),
    );
    let removed = manager.insert_recording(3, SaveModePolicy::Both, a3);
    assert_eq!(removed.len(), 1);
    assert_eq!(removed[0].id, 1);
    assert_eq!(manager.record_count(), 2);

    // The pruned recording was text-only: its mode never created an audio
    // file, so nothing is scheduled for deletion.
    assert!(cleanup_audio_paths(&removed).is_empty());

    // Pruning a recording that kept audio schedules exactly that file.
    let a4 = route_artifacts(
        SaveModePolicy::AudioOnly,
        "recordings/4.wav".to_string(),
        "fourth".to_string(),
    );
    let removed = manager.insert_recording(4, SaveModePolicy::AudioOnly, a4);
    assert_eq!(removed.len(), 1);
    assert_eq!(removed[0].id, 2);
    assert_eq!(
        cleanup_audio_paths(&removed),
        vec!["recordings/2.wav".to_string()]
    );
}

#[test]
fn test_retention_keep_all_never_prunes() {
    let mut manager = RecordingPersistenceManager::new(RetentionPolicy::KeepAll);
    for i in 0..10u64 {
        let artifact = route_artifacts(
            SaveModePolicy::Both,
            format!("recordings/{}.wav", i),
            format!("text {}", i),
        );
        let removed = manager.insert_recording(i, SaveModePolicy::Both, artifact);
        assert!(removed.is_empty());
    }
    assert_eq!(manager.record_count(), 10);
    assert_eq!(manager.retention(), RetentionPolicy::KeepAll);
}

#[test]
fn test_persist_recording_full_lifecycle() {
    let mut manager = RecordingPersistenceManager::new(RetentionPolicy::KeepLast(1));

    let (plan, removed) = manager.persist_recording(
        10,
        SaveModePolicy::TextOnly,
        true,
        "recordings/a.wav".to_string(),
        "first utterance".to_string(),
    );
    assert!(!plan.write_audio && plan.write_text && plan.delete_transient_audio);
    assert!(removed.is_empty());

    let (plan, removed) = manager.persist_recording(
        11,
        SaveModePolicy::Both,
        false,
        "recordings/b.wav".to_string(),
        "second utterance".to_string(),
    );
    assert!(plan.write_audio && plan.write_text && !plan.delete_transient_audio);
    assert_eq!(removed.len(), 1);
    assert_eq!(removed[0].id, 10);
    assert_eq!(removed[0].artifact.audio_path, None);
    assert_eq!(removed[0].artifact.text, Some("first utterance".to_string()));
    assert_eq!(manager.record_count(), 1);
}
