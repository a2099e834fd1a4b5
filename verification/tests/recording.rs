use voice_notes::errors::RecorderError;
use voice_notes::recorder::AudioRecorder;
use voice_notes::recorder::StartOutcome;
use voice_notes::wav::decode_wav;
use voice_notes::wav::encode_wav;

#[test]
fn new_recorder_is_idle() {
    let r = AudioRecorder::new();
    assert!(!r.recording_active());
    assert!(r.recorded_file.is_none());
}

#[test]
fn start_then_stop_returns_requested_path() {
    let mut r = AudioRecorder::new();
    let res = r.start_recording("out/take1.wav".to_string(), StartOutcome::Ready);
    assert_eq!(res, Ok(()));
    assert!(r.recording_active());
    let stopped = r.stop_recording();
    assert_eq!(stopped, Ok("out/take1.wav".to_string()));
    assert!(!r.recording_active());
    assert!(r.recorded_file.is_none());
}

#[test]
fn start_while_recording_is_rejected_without_state_change() {
    let mut r = AudioRecorder::new();
    assert_eq!(r.start_recording("a.wav".to_string(), StartOutcome::Ready), Ok(()));
    let second = r.start_recording("b.wav".to_string(), StartOutcome::Ready);
    assert_eq!(second, Err(RecorderError::AlreadyRecording));
    assert!(r.recording_active());
    assert_eq!(r.stop_recording(), Ok("a.wav".to_string()));
}

#[test]
fn stop_while_idle_returns_not_recording() {
    let mut r = AudioRecorder::new();
    assert_eq!(r.stop_recording(), Err(RecorderError::NotRecording));
    assert!(!r.recording_active());
}

#[test]
fn start_without_device_fails_and_stays_idle() {
    let mut r = AudioRecorder::new();
    let res = r.start_recording("a.wav".to_string(), StartOutcome::NoInputDevice);
    assert_eq!(res, Err(RecorderError::DeviceUnavailable));
    assert!(!r.recording_active());
    assert!(r.recorded_file.is_none());
}

#[test]
fn start_with_container_failure_fails_with_io_error() {
    let mut r = AudioRecorder::new();
    let res = r.start_recording("a.wav".to_string(), StartOutcome::ContainerCreateFailed);
    assert_eq!(res, Err(RecorderError::IoError));
    assert!(!r.recording_active());
}

#[test]
fn start_with_dead_session_fails_with_start_timeout() {
    let mut r = AudioRecorder::new();
    let res = r.start_recording("a.wav".to_string(), StartOutcome::SessionClosed);
    assert_eq!(res, Err(RecorderError::StartTimeout));
    assert!(!r.recording_active());
}

#[test]
fn header_holds_the_fixed_capture_format() {
    let bytes = encode_wav(&vec![]);
    assert_eq!(bytes.len(), 44);
    assert_eq!(&bytes[0..4], b"RIFF");
    assert_eq!(&bytes[4..8], &36u32.to_le_bytes());
    assert_eq!(&bytes[8..12], b"WAVE");
    assert_eq!(&bytes[12..16], b"fmt ");
    assert_eq!(&bytes[16..20], &16u32.to_le_bytes());
    // integer PCM, mono, 16 kHz, 16 bits per sample
    assert_eq!(&bytes[20..22], &1u16.to_le_bytes());
    assert_eq!(&bytes[22..24], &1u16.to_le_bytes());
    assert_eq!(&bytes[24..28], &16000u32.to_le_bytes());
    assert_eq!(&bytes[28..32], &32000u32.to_le_bytes());
    assert_eq!(&bytes[32..34], &2u16.to_le_bytes());
    assert_eq!(&bytes[34..36], &16u16.to_le_bytes());
    assert_eq!(&bytes[36..40], b"data");
    assert_eq!(&bytes[40..44], &0u32.to_le_bytes());
}

#[test]
fn samples_are_encoded_little_endian_in_order() {
    let bytes = encode_wav(&vec![258, -2]);
    assert_eq!(bytes.len(), 48);
    assert_eq!(&bytes[4..8], &40u32.to_le_bytes());
    assert_eq!(&bytes[40..44], &4u32.to_le_bytes());
    assert_eq!(&bytes[44..48], &[0x02, 0x01, 0xfe, 0xff]);
}

#[test]
fn encode_decode_round_trip_reconstructs_every_sample() {
    let samples: Vec<i16> = vec![0, 1, -1, 1000, -1000, 12345, -12345, i16::MAX, i16::MIN];
    let bytes = encode_wav(&samples);
    assert_eq!(decode_wav(&bytes), Ok(samples));
}

#[test]
fn decode_rejects_malformed_containers() {
    assert_eq!(decode_wav(&vec![]), Err(RecorderError::UnreadableAudio));
    assert_eq!(decode_wav(&vec![0u8; 43]), Err(RecorderError::UnreadableAudio));
    assert_eq!(decode_wav(&vec![0u8; 44]), Err(RecorderError::UnreadableAudio));
    // a valid container with one data byte chopped off has an odd data chunk
    let mut truncated = encode_wav(&vec![7, 8]);
    truncated.pop();
    assert_eq!(decode_wav(&truncated), Err(RecorderError::UnreadableAudio));
}

#[test]
fn decode_rejects_other_sample_rates() {
    let mut bytes = encode_wav(&vec![1, 2, 3]);
    // patch the sample-rate field to 44100 Hz
    bytes[24..28].copy_from_slice(&44100u32.to_le_bytes());
    assert_eq!(decode_wav(&bytes), Err(RecorderError::UnreadableAudio));
}

#[test]
fn encoded_container_is_read_back_by_a_wav_library() {
    let samples: Vec<i16> = vec![3, -3, 32767, -32768, 0];
    let bytes = encode_wav(&samples);
    let reader = hound::WavReader::new(std::io::Cursor::new(bytes)).unwrap();
    let spec = reader.spec();
    assert_eq!(spec.channels, 1);
    assert_eq!(spec.sample_rate, 16000);
    assert_eq!(spec.bits_per_sample, 16);
    assert_eq!(spec.sample_format, hound::SampleFormat::Int);
    let read: Vec<i16> = reader
        .into_samples::<i16>()
        .collect::<Result<Vec<i16>, _>>()
        .unwrap();
    assert_eq!(read, samples);
}

#[test]
fn container_written_by_a_wav_library_is_decoded() {
    let samples: Vec<i16> = vec![-7, 7, 255, -256, 21000];
    let spec = hound::WavSpec {
        channels: 1,
        sample_rate: 16000,
        bits_per_sample: 16,
        sample_format: hound::SampleFormat::Int,
    };
    let mut cursor = std::io::Cursor::new(Vec::new());
    {
        let mut writer = hound::WavWriter::new(&mut cursor, spec).unwrap();
        for &s in &samples {
            writer.write_sample(s).unwrap();
        }
        writer.finalize().unwrap();
    }
    let bytes = cursor.into_inner();
    assert_eq!(decode_wav(&bytes), Ok(samples));
}
