use voice_vibe_local::devices::{AudioDevice, DeviceType, Platform};
use voice_vibe_local::recording::{
    final_segments, flush_due_after, recording_id_from_parts, recording_id_from_path,
    recording_mode_for, should_flush_buffer, temp_segment_file_name, workspace_folder_from_names,
    workspace_folder_from_recording_path, FinalSegments, RecordingMode, BUFFER_FLUSH_THRESHOLD,
};

#[test]
fn buffers_flush_on_size_or_time() {
    assert!(flush_due_after(BUFFER_FLUSH_THRESHOLD, None));
    assert!(!flush_due_after(BUFFER_FLUSH_THRESHOLD - 1, None));
    assert!(flush_due_after(10, Some(10_000)));
    assert!(!flush_due_after(10, Some(9_999)));
    assert!(should_flush_buffer(BUFFER_FLUSH_THRESHOLD, Some(std::time::Instant::now())));
    assert!(!should_flush_buffer(1, None));
    assert!(!should_flush_buffer(1, Some(std::time::Instant::now())));
}

#[test]
fn recordings_mix_system_audio_when_it_can_be_captured() {
    let output = AudioDevice::new("Speakers".to_string(), DeviceType::Output);
    let monitor = AudioDevice::new("alsa_output.monitor".to_string(), DeviceType::Output);
    let input = AudioDevice::new("Mic".to_string(), DeviceType::Input);
    assert_eq!(recording_mode_for(Some(&output), Platform::Windows, false), RecordingMode::MixedAudio);
    assert_eq!(recording_mode_for(Some(&output), Platform::MacOs, false), RecordingMode::MicrophoneOnly);
    assert_eq!(recording_mode_for(Some(&output), Platform::MacOs, true), RecordingMode::MixedAudio);
    assert_eq!(recording_mode_for(Some(&output), Platform::Linux, true), RecordingMode::MicrophoneOnly);
    assert_eq!(recording_mode_for(Some(&monitor), Platform::Linux, false), RecordingMode::MixedAudio);
    assert_eq!(recording_mode_for(Some(&input), Platform::Windows, true), RecordingMode::MicrophoneOnly);
    assert_eq!(recording_mode_for(None, Platform::Windows, true), RecordingMode::MicrophoneOnly);
}

#[test]
fn recording_ids_carry_their_workspace() {
    assert_eq!(
        recording_id_from_path("/data/workspaces/项目A/recordings/meeting-01.wav"),
        "项目A__meeting-01"
    );
    assert_eq!(recording_id_from_path("/tmp/meeting-02.m4a"), "meeting-02");
    assert_eq!(
        workspace_folder_from_recording_path("/data/workspaces/a/notes/x.wav"),
        None
    );
    assert_eq!(
        workspace_folder_from_recording_path("/data/workspaces/a/recordings/x.wav").as_deref(),
        Some("a")
    );
    assert_eq!(
        workspace_folder_from_names(Some("recordings".to_string()), Some("workspaces".to_string()), Some("  ".to_string())),
        None
    );
    assert_eq!(recording_id_from_parts(Some(" ".to_string()), None, "fallback"), "fallback");
    assert_eq!(
        recording_id_from_parts(Some("take".to_string()), Some("w".to_string()), "fallback"),
        "w__take"
    );
    let generated = recording_id_from_path("/");
    assert_eq!(generated.chars().count(), 36);
    assert_ne!(generated, recording_id_from_path("/"));
}

#[test]
fn segment_files_are_named_by_channel_and_padded_index() {
    assert_eq!(temp_segment_file_name("mic", 0), "temp_mic_000.raw");
    assert_eq!(temp_segment_file_name("system", 42), "temp_system_042.raw");
    assert_eq!(temp_segment_file_name("mic", 1234), "temp_mic_1234.raw");
}

#[test]
fn stopping_writes_a_final_segment_only_for_buffered_samples() {
    assert_eq!(
        final_segments(2, true, 10, 0),
        Ok(FinalSegments { write_mic: true, write_system: false, segment_count: 3 })
    );
    assert_eq!(
        final_segments(2, true, 0, 0),
        Ok(FinalSegments { write_mic: false, write_system: false, segment_count: 2 })
    );
    assert_eq!(
        final_segments(0, false, 10, 10),
        Err("No audio data captured".to_string())
    );
    assert_eq!(
        final_segments(0, true, 0, 5),
        Ok(FinalSegments { write_mic: false, write_system: true, segment_count: 1 })
    );
}

#[test]
fn stopping_without_a_temp_directory_cannot_merge_segments() {
    assert_eq!(
        final_segments(2, false, 0, 0),
        Err("No temp directory available for processing".to_string())
    );
    assert_eq!(
        final_segments(3, false, 10, 10),
        Err("No temp directory available for processing".to_string())
    );
}
