use galpi::error::AppError;
use galpi::recording::{
    capture_chunk_samples, dropped_after_send, is_recoverable_stream_error, SendOutcome, microphone_error_code, queue_capacity, recording_frames,
    verify_recording_id, with_cleanup, ChunkPlan, FailureSlot, MicrophoneFault, RecordingSession,
    WriterState, RIFF_DATA_LIMIT,
};

#[test]
fn treats_core_audio_xrun_as_recoverable() {
    assert!(is_recoverable_stream_error(MicrophoneFault::Xrun));
    assert!(!is_recoverable_stream_error(MicrophoneFault::DeviceNotAvailable));
}

#[test]
fn microphone_faults_map_to_their_codes() {
    assert_eq!(microphone_error_code(MicrophoneFault::PermissionDenied), "MICROPHONE_PERMISSION_DENIED");
    assert_eq!(microphone_error_code(MicrophoneFault::DeviceNotAvailable), "MICROPHONE_UNAVAILABLE");
    assert_eq!(microphone_error_code(MicrophoneFault::DeviceBusy), "MICROPHONE_BUSY");
    assert_eq!(microphone_error_code(MicrophoneFault::UnsupportedConfig), "UNSUPPORTED_AUDIO_CONFIG");
    assert_eq!(microphone_error_code(MicrophoneFault::Other), "MICROPHONE_ERROR");
}

#[test]
fn recording_lifecycle_rejects_reentry_and_wrong_session() {
    let mut session = RecordingSession::new();
    assert!(session.check_idle().is_ok());
    session.started(11);
    assert_eq!(session.check_idle().err().map(|e| e.code), Some("RECORDING_BUSY".to_owned()));
    assert_eq!(session.end(12).err().map(|e| e.code), Some("RECORDING_ID_MISMATCH".to_owned()));
    assert!(session.end(11).is_ok());
    assert_eq!(session.end(11).err().map(|e| e.code), Some("RECORDING_NOT_ACTIVE".to_owned()));
    assert!(session.check_idle().is_ok());
    assert!(verify_recording_id(Some(3), 3).is_ok());
}

#[test]
fn the_first_failure_is_the_one_reported() {
    let mut slot = FailureSlot::new();
    assert!(!slot.has_failure());
    assert!(slot.store("MICROPHONE_DISCONNECTED", "gone"));
    assert!(!slot.store("WAV_WRITER_FAILED", "later"));
    assert!(slot.has_failure());
    assert_eq!(slot.take(), Some(("MICROPHONE_DISCONNECTED".to_owned(), "gone".to_owned())));
    assert_eq!(slot.take(), None);
}

#[test]
fn the_writer_queue_holds_thirty_seconds_of_chunks() {
    assert_eq!(queue_capacity(48_000), 352);
    assert_eq!(queue_capacity(44_100), 323);
    assert_eq!(queue_capacity(0), 0);
}

#[test]
fn fills_dropped_samples_with_silence_and_reports_them() {
    // Given
    let mut state = WriterState::new(48_000, 1);

    // When: two dropped samples, a chunk of two, then two dropped at the end
    let plan = state.plan_chunk(2, 2);
    assert_eq!(plan, ChunkPlan::Write { silence: 2 });
    let _flush = state.wrote_chunk(2, 2);
    let finish = state.plan_finish(2);
    assert_eq!(finish, ChunkPlan::Write { silence: 2 });
    let _flush = state.wrote_chunk(2, 0);

    // Then
    assert_eq!(state.samples, 6);
    assert_eq!(state.dropped_samples, 4);
}

#[test]
fn the_writer_flushes_every_five_seconds_of_audio() {
    let mut state = WriterState::new(10, 2);
    assert_eq!(state.flush_every, 100);
    assert!(!state.wrote_chunk(0, 60));
    assert!(state.wrote_chunk(10, 40));
    assert_eq!(state.next_flush, 210);
}

#[test]
fn a_chunk_that_would_outgrow_the_wav_header_is_refused() {
    let state = WriterState {
        samples: RIFF_DATA_LIMIT / 2 - 1,
        dropped_samples: 0,
        next_flush: u64::MAX,
        flush_every: 10,
    };
    assert_eq!(state.plan_chunk(1, 0), ChunkPlan::Write { silence: 0 });
    assert_eq!(state.plan_chunk(2, 0), ChunkPlan::TooLarge);
    assert_eq!(state.plan_chunk(0, u64::MAX), ChunkPlan::TooLarge);
}

#[test]
fn frames_count_whole_frames_and_refuse_overlong_recordings() {
    assert_eq!(recording_frames(96_000, 2), Ok(48_000));
    assert_eq!(recording_frames(7, 2), Ok(3));
    let too_long = recording_frames(u64::from(u32::MAX) * 2 + 2, 2);
    assert_eq!(too_long.err().map(|e| e.code), Some("WAV_TOO_LARGE".to_owned()));
}

#[test]
fn a_failed_cleanup_is_reported_with_the_original_error() {
    let error = AppError::new("MICROPHONE_ERROR", "device vanished");
    assert_eq!(with_cleanup(error.clone(), Ok(())), error);
    let reported = with_cleanup(error, Err(AppError::new("IO_ERROR", "busy file")));
    assert_eq!(reported.code, "RECORDING_CLEANUP_FAILED");
    assert_eq!(reported.message, "device vanished; cleanup: busy file");
}

#[test]
fn counts_samples_instead_of_failing_when_writer_queue_is_full() {
    // Given: a full writer queue and no audio dropped yet
    let slot = FailureSlot::new();

    // When: a chunk of two samples cannot be handed over
    let dropped = dropped_after_send(SendOutcome::Full, 0, 2);

    // Then: the two samples are counted as dropped and nothing failed
    assert_eq!(dropped, Some(2));
    assert!(!slot.has_failure());
}

#[test]
fn a_delivered_chunk_leaves_nothing_dropped_and_a_gone_writer_stops_capture() {
    assert_eq!(dropped_after_send(SendOutcome::Sent, 7, 4096), Some(0));
    assert_eq!(dropped_after_send(SendOutcome::Full, 7, 4096), Some(4103));
    assert_eq!(dropped_after_send(SendOutcome::Full, u64::MAX, 1), Some(u64::MAX));
    assert_eq!(dropped_after_send(SendOutcome::Disconnected, 7, 4096), None);
    assert_eq!(capture_chunk_samples(2), 8192);
}
