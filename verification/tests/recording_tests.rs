use std::io::Cursor;

use recorder::controller::{AdvanceEffect, FileError, RecState, RecordingController};
use recorder::fanout::deliver;
use recorder::meter::VolumeMeter;
use recorder::wav::{AudioFormat, SampleKind, WavEncoder};

fn int_mono_format() -> AudioFormat {
    AudioFormat::new(1, 44100, SampleKind::Int16).unwrap()
}

#[test]
fn format_rejects_oversized_fields() {
    assert!(AudioFormat::new(0, 44100, SampleKind::Int16).is_none());
    assert!(AudioFormat::new(1, 0, SampleKind::Int16).is_none());
    // 40000 channels of 4-byte samples overflow the 16-bit block align.
    assert!(AudioFormat::new(40000, 8000, SampleKind::Float32).is_none());
    assert!(AudioFormat::new(2, 48000, SampleKind::Float32).is_some());
}

#[test]
fn unwritable_output_fails_and_stays_not_started() {
    let mut c = RecordingController::new(int_mono_format());
    assert_eq!(c.state(), RecState::NotStarted);
    let r = c.advance(5, false);
    assert_eq!(r, Err(FileError));
    assert_eq!(c.state(), RecState::NotStarted);
    // A later attempt with a writable output still starts the session.
    assert!(matches!(c.advance(7, true), Ok(AdvanceEffect::Started)));
    assert_eq!(c.state(), RecState::Recording);
}

#[test]
fn elapsed_time_counts_from_the_start_transition() {
    let mut c = RecordingController::new(int_mono_format());
    c.advance(1000, true).unwrap();
    assert_eq!(c.elapsed_ms(1500), 500);
    assert_eq!(c.elapsed_ms(1000), 0);
}

#[test]
fn stopping_twice_finalizes_exactly_once() {
    let mut c = RecordingController::new(int_mono_format());
    c.advance(0, true).unwrap();
    c.feed_batch(&vec![32768, -32768]);
    let first = c.advance(50, true).unwrap();
    let file = match first {
        AdvanceEffect::Finalized(f) => f,
        _ => panic!("first stop must finalize"),
    };
    assert_eq!(c.state(), RecState::Finished);
    assert_eq!(file.len(), 44 + 4);
    // The second call is a no-op: no error, no second file, no state change.
    let second = c.advance(60, true).unwrap();
    assert!(matches!(second, AdvanceEffect::AlreadyFinished));
    assert_eq!(c.state(), RecState::Finished);
    // Samples fed after the session ended are ignored.
    c.feed_batch(&vec![100]);
    assert!(matches!(
        c.advance(70, false),
        Ok(AdvanceEffect::AlreadyFinished)
    ));
}

#[test]
fn end_to_end_thousand_half_scale_samples() {
    // NotStarted -> advance -> Recording with an open writer.
    let mut c = RecordingController::new(int_mono_format());
    let mut m = VolumeMeter::new(33, 0);
    assert_eq!(c.state(), RecState::NotStarted);
    assert!(matches!(c.advance(0, true), Ok(AdvanceEffect::Started)));
    assert_eq!(c.state(), RecState::Recording);

    // 1,000 samples of amplitude 0.5 at 16-bit mono 44100 Hz.
    let batch: Vec<i32> = vec![32768; 250];
    for _ in 0..4 {
        deliver(&mut c, &mut m, &batch);
    }

    let file = match c.advance(100, true).unwrap() {
        AdvanceEffect::Finalized(f) => f,
        _ => panic!("stop must finalize"),
    };
    assert_eq!(c.state(), RecState::Finished);

    // The header reports 1,000 frames, 1 channel, 44100 Hz, 16-bit depth.
    let reader = hound::WavReader::new(Cursor::new(file)).unwrap();
    let spec = reader.spec();
    assert_eq!(spec.channels, 1);
    assert_eq!(spec.sample_rate, 44100);
    assert_eq!(spec.bits_per_sample, 16);
    assert_eq!(spec.sample_format, hound::SampleFormat::Int);
    assert_eq!(reader.duration(), 1000);

    // Every stored frame round-trips to a quantized 0.5.
    let samples: Vec<i16> = reader
        .into_samples::<i16>()
        .map(|s| s.unwrap())
        .collect();
    assert_eq!(samples.len(), 1000);
    for s in samples {
        assert_eq!(s, 16384);
        assert_eq!(s as f32 / 32768.0, 0.5);
    }

    // The meter observed the same stream.
    assert_eq!(m.tick(33), vec![32768]);
}

#[test]
fn consumers_see_the_same_ordered_stream() {
    let mut c = RecordingController::new(int_mono_format());
    let mut m = VolumeMeter::new(33, 0);
    c.advance(0, true).unwrap();
    // Two batches of distinct samples, delivered to both consumers.
    deliver(&mut c, &mut m, &vec![2, 4, 6]);
    deliver(&mut c, &mut m, &vec![8, 10]);
    let file = match c.advance(9, true).unwrap() {
        AdvanceEffect::Finalized(f) => f,
        _ => panic!("stop must finalize"),
    };
    let reader = hound::WavReader::new(Cursor::new(file)).unwrap();
    let samples: Vec<i16> = reader
        .into_samples::<i16>()
        .map(|s| s.unwrap())
        .collect();
    // No reordering, no duplication: the concatenation of the batches.
    assert_eq!(samples, vec![1, 2, 3, 4, 5]);
    // The meter saw the same stream: its peak is the stream's maximum.
    assert_eq!(m.tick(33), vec![10]);
}

#[test]
fn float_format_stores_ieee_samples() {
    let fmt = AudioFormat::new(1, 8000, SampleKind::Float32).unwrap();
    let mut e = WavEncoder::new(fmt);
    for s in [32768i32, -65536, 131072, 0] {
        assert!(e.can_append());
        e.append_sample(s);
    }
    let file = e.finalize();
    let reader = hound::WavReader::new(Cursor::new(file)).unwrap();
    let spec = reader.spec();
    assert_eq!(spec.channels, 1);
    assert_eq!(spec.sample_rate, 8000);
    assert_eq!(spec.bits_per_sample, 32);
    assert_eq!(spec.sample_format, hound::SampleFormat::Float);
    let samples: Vec<f32> = reader
        .into_samples::<f32>()
        .map(|s| s.unwrap())
        .collect();
    assert_eq!(samples, vec![0.5, -1.0, 2.0, 0.0]);
}

#[test]
fn empty_recording_is_a_valid_header_only_file() {
    let mut c = RecordingController::new(int_mono_format());
    c.advance(0, true).unwrap();
    let file = match c.advance(1, true).unwrap() {
        AdvanceEffect::Finalized(f) => f,
        _ => panic!("stop must finalize"),
    };
    assert_eq!(file.len(), 44);
    assert_eq!(&file[0..4], b"RIFF");
    assert_eq!(&file[8..12], b"WAVE");
    assert_eq!(&file[36..40], b"data");
    // RIFF size 36, data size 0.
    assert_eq!(&file[4..8], &[36, 0, 0, 0]);
    assert_eq!(&file[40..44], &[0, 0, 0, 0]);
    let reader = hound::WavReader::new(Cursor::new(file)).unwrap();
    assert_eq!(reader.duration(), 0);
}
