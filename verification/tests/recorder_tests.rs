use flemme::audio::recorder::{
    conditioning_steps, decimate, downmix, resample_chunks, resampler_params, resampling_for,
    select_device, AudioCapture, AudioRecorder, CaptureActivity, CaptureError, CaptureEvent,
    CaptureTask, ConditioningStep, DeviceChoice, ResamplerParams, Resampling, RESAMPLER_CHUNK,
    TARGET_RATE,
};
use std::cell::RefCell;

fn mean(frame: Vec<f32>) -> f32 {
    frame.iter().sum::<f32>() / frame.len() as f32
}

fn names(list: &[&str]) -> Vec<String> {
    list.iter().map(|s| s.to_string()).collect()
}

#[test]
fn stereo_downmix_is_the_frame_average() {
    let data = [0.2f32, 0.4, -1.0, 1.0, 0.5, 0.0, 0.25, 0.75];
    let mono = downmix(&data, 2, &mean);
    assert_eq!(mono, vec![(0.2f32 + 0.4) / 2.0, 0.0, 0.25, 0.5]);
    let first_channel_only = vec![0.2f32, -1.0, 0.5, 0.25];
    assert_ne!(mono, first_channel_only);
}

#[test]
fn downmix_averages_all_channels() {
    let data = [3.0f32, 6.0, 9.0, 1.0, 1.0, 1.0, 0.0, 0.0, 3.0];
    assert_eq!(downmix(&data, 3, &mean), vec![6.0, 1.0, 1.0]);
    let four = [1.0f32, 2.0, 3.0, 4.0, 5.0];
    assert_eq!(downmix(&four, 4, &mean), vec![2.5]);
}

#[test]
fn mono_input_passes_through() {
    let data = [0.1f32, 0.2, 0.3];
    assert_eq!(downmix(&data, 1, &mean), data.to_vec());
    assert_eq!(downmix(&data, 0, &mean), data.to_vec());
    assert_eq!(downmix::<f32, _>(&[], 2, &mean), Vec::<f32>::new());
}

#[test]
fn downmix_drops_an_incomplete_last_frame() {
    let data = [1.0f32, 3.0, 5.0];
    assert_eq!(downmix(&data, 2, &mean), vec![2.0]);
}

#[test]
fn list_devices_marks_the_default() {
    let listed =
        AudioRecorder::list_devices(names(&["Mic A", "Mic B", "Mic C"]), Some("Mic B".to_string()));
    assert_eq!(
        listed,
        Ok(vec![
            ("Mic A".to_string(), false),
            ("Mic B".to_string(), true),
            ("Mic C".to_string(), false),
        ])
    );
    let none_default = AudioRecorder::list_devices(names(&["Mic A"]), None);
    assert_eq!(none_default, Ok(vec![("Mic A".to_string(), false)]));
    let unknown_default = AudioRecorder::list_devices(names(&["Mic A"]), Some("Other".to_string()));
    assert_eq!(unknown_default, Ok(vec![("Mic A".to_string(), false)]));
}

#[test]
fn list_devices_fails_without_devices() {
    assert_eq!(AudioRecorder::list_devices(vec![], None), Err(CaptureError::NoDevicesFound));
    assert_eq!(
        AudioRecorder::list_devices(vec![], Some("Mic".to_string())),
        Err(CaptureError::NoDevicesFound)
    );
}

#[test]
fn select_device_finds_the_named_or_default_device() {
    let devices = names(&["Built-in", "USB", "USB"]);
    assert_eq!(select_device(&devices, &None, true), Ok(DeviceChoice::Default));
    assert_eq!(select_device(&devices, &None, false), Err(CaptureError::DeviceUnavailable));
    assert_eq!(
        select_device(&devices, &Some("USB".to_string()), false),
        Ok(DeviceChoice::Listed(1))
    );
    assert_eq!(
        select_device(&devices, &Some("Built-in".to_string()), true),
        Ok(DeviceChoice::Listed(0))
    );
    assert_eq!(
        select_device(&devices, &Some("Missing".to_string()), true),
        Err(CaptureError::DeviceUnavailable)
    );
    assert_eq!(
        select_device(&vec![], &Some("USB".to_string()), true),
        Err(CaptureError::DeviceUnavailable)
    );
}

#[test]
fn converter_is_needed_off_the_target_rate() {
    assert_eq!(TARGET_RATE, 16000);
    assert_eq!(resampler_params(16000), None);
    assert_eq!(
        resampler_params(48000),
        Some(ResamplerParams {
            input_rate: 48000,
            output_rate: 16000,
            chunk_size: 1024,
            sub_chunks: 2,
            channels: 1,
        })
    );
    assert_eq!(resampler_params(44100).unwrap().input_rate, 44100);
    assert_eq!(RESAMPLER_CHUNK, 1024);
    assert_eq!(resampling_for(16000, true), Resampling::NotNeeded);
    assert_eq!(resampling_for(16000, false), Resampling::NotNeeded);
    assert_eq!(resampling_for(48000, true), Resampling::Converter);
    assert_eq!(resampling_for(48000, false), Resampling::Decimation);
}

#[test]
fn conditioning_runs_in_a_fixed_order() {
    assert_eq!(
        conditioning_steps(Resampling::NotNeeded),
        vec![ConditioningStep::RemoveDcOffset, ConditioningStep::NormalizePeak]
    );
    assert_eq!(
        conditioning_steps(Resampling::Converter),
        vec![
            ConditioningStep::RemoveDcOffset,
            ConditioningStep::NormalizePeak,
            ConditioningStep::Convert,
        ]
    );
    assert_eq!(
        conditioning_steps(Resampling::Decimation),
        vec![
            ConditioningStep::RemoveDcOffset,
            ConditioningStep::NormalizePeak,
            ConditioningStep::Decimate,
        ]
    );
}

#[test]
fn decimation_keeps_every_third_sample_from_48k() {
    let input: Vec<u32> = (0..12).collect();
    assert_eq!(decimate(&input, 48000, 16000), vec![0, 3, 6, 9]);
    let input: Vec<u32> = (0..14).collect();
    assert_eq!(decimate(&input, 48000, 16000), vec![0, 3, 6, 9]);
    assert_eq!(decimate(&input, 32000, 16000), vec![0, 2, 4, 6, 8, 10, 12]);
    assert_eq!(decimate(&input, 16000, 16000), input);
    assert_eq!(decimate::<u32>(&[], 48000, 16000), Vec::<u32>::new());
}

#[test]
fn decimation_handles_fractional_ratios() {
    let input: Vec<u32> = (0..441).collect();
    let out = decimate(&input, 44100, 16000);
    assert_eq!(out.len(), 160);
    for (i, value) in out.iter().enumerate() {
        assert_eq!(*value as usize, i * 44100 / 16000);
    }
    let up = decimate(&[7u32, 8, 9], 8000, 16000);
    assert_eq!(up, vec![7, 7, 8, 8, 9, 9]);
}

#[test]
fn resample_chunks_pads_and_joins() {
    let seen = RefCell::new(Vec::new());
    let halve = |chunk: Vec<i32>| -> Option<Vec<i32>> {
        seen.borrow_mut().push(chunk.clone());
        Some(chunk.iter().step_by(2).copied().collect())
    };
    let input: Vec<i32> = (1..=10).collect();
    let out = resample_chunks(&input, 4, 0, &halve);
    assert_eq!(out, Ok(vec![1, 3, 5, 7, 9, 0]));
    assert_eq!(*seen.borrow(), vec![vec![1, 2, 3, 4], vec![5, 6, 7, 8], vec![9, 10, 0, 0]]);
    assert_eq!(resample_chunks(&[], 4, 0, &halve), Ok(vec![]));
    assert_eq!(seen.borrow().len(), 3);
}

#[test]
fn resample_chunks_stops_at_the_first_failure() {
    let calls = RefCell::new(0usize);
    let failing_second = |chunk: Vec<i32>| -> Option<Vec<i32>> {
        *calls.borrow_mut() += 1;
        if *calls.borrow() == 2 {
            None
        } else {
            Some(chunk)
        }
    };
    let input: Vec<i32> = (1..=10).collect();
    assert_eq!(resample_chunks(&input, 4, 0, &failing_second), Err(CaptureError::ResampleFailed));
    assert_eq!(*calls.borrow(), 2);
}

#[test]
fn recorder_tracks_recording() {
    let mut recorder = AudioRecorder::new(48000, 2, true);
    assert_eq!(recorder.resampling, Resampling::Converter);
    assert_eq!(recorder.sample_rate(), 16000);
    assert!(!recorder.is_recording());
    assert_eq!(recorder.stop_recording(), Err(CaptureError::NotRecording));
    assert_eq!(recorder.start_recording(false), Err(CaptureError::StreamFailed));
    assert!(!recorder.is_recording());
    assert_eq!(recorder.start_recording(true), Ok(()));
    assert!(recorder.is_recording());
    assert_eq!(
        recorder.stop_recording(),
        Ok(vec![
            ConditioningStep::RemoveDcOffset,
            ConditioningStep::NormalizePeak,
            ConditioningStep::Convert,
        ])
    );
    assert!(!recorder.is_recording());
    assert_eq!(recorder.stop_recording(), Err(CaptureError::NotRecording));
    assert_eq!(AudioRecorder::new(16000, 1, false).resampling, Resampling::NotNeeded);
    assert_eq!(AudioRecorder::new(44100, 1, false).resampling, Resampling::Decimation);
}

#[test]
fn capture_opens_the_device_on_first_start() {
    let capture = AudioCapture::new();
    assert!(!capture.is_recording());
    let (capture, task) = capture.step(CaptureEvent::Start { device: Some("USB".to_string()) });
    assert!(matches!(task, CaptureTask::OpenDevice { device: Some(ref d) } if d == "USB"));
    assert_eq!(capture.activity, CaptureActivity::Opening);
    let (capture, task) = capture.step(CaptureEvent::DeviceOpened {
        native_rate: 44100,
        channels: 2,
        converter_built: false,
    });
    assert!(matches!(task, CaptureTask::StartStream));
    assert_eq!(capture.activity, CaptureActivity::Starting);
    let (capture, task) = capture.step(CaptureEvent::StreamStarted);
    assert!(matches!(task, CaptureTask::Nothing));
    assert!(capture.is_recording());
    assert_eq!(
        capture.recorder,
        Some(AudioRecorder {
            native_rate: 44100,
            channels: 2,
            resampling: Resampling::Decimation,
            recording: true,
        })
    );
    let (capture, task) = capture.step(CaptureEvent::Query);
    assert!(matches!(task, CaptureTask::ReplyRecording { recording: true }));
    let (capture, task) = capture.step(CaptureEvent::Stop);
    assert!(matches!(task, CaptureTask::StopStream { resampling: Resampling::Decimation }));
    assert!(!capture.is_recording());
    let (capture, task) = capture.step(CaptureEvent::Start { device: None });
    assert!(matches!(task, CaptureTask::StartStream));
    let (capture, _) = capture.step(CaptureEvent::StreamStarted);
    assert!(capture.is_recording());
    let (capture, task) = capture.step(CaptureEvent::Shutdown);
    assert!(matches!(task, CaptureTask::Exit));
    assert_eq!(capture.activity, CaptureActivity::Stopped);
    let (capture, task) = capture.step(CaptureEvent::Start { device: None });
    assert!(matches!(task, CaptureTask::Nothing));
    assert_eq!(capture.activity, CaptureActivity::Stopped);
}

#[test]
fn capture_stop_without_session_is_refused() {
    let capture = AudioCapture::new();
    let (capture, task) = capture.step(CaptureEvent::Stop);
    assert!(matches!(task, CaptureTask::RefuseStop { error: CaptureError::NotRecording }));
    assert_eq!(capture, AudioCapture::new());
    let (capture, task) = capture.step(CaptureEvent::Query);
    assert!(matches!(task, CaptureTask::ReplyRecording { recording: false }));
    let (capture, _) = capture.step(CaptureEvent::Start { device: None });
    let (capture, _) = capture.step(CaptureEvent::DeviceOpened {
        native_rate: 16000,
        channels: 1,
        converter_built: false,
    });
    let (capture, _) = capture.step(CaptureEvent::StreamStarted);
    let (capture, _) = capture.step(CaptureEvent::Stop);
    let (_, task) = capture.step(CaptureEvent::Stop);
    assert!(matches!(task, CaptureTask::RefuseStop { error: CaptureError::NotRecording }));
}

#[test]
fn capture_start_failures_leave_nothing_recording() {
    let (capture, _) = AudioCapture::new().step(CaptureEvent::Start { device: None });
    let (capture, task) = capture.step(CaptureEvent::DeviceUnavailable);
    assert!(matches!(
        task,
        CaptureTask::ReportStartFailed { error: CaptureError::DeviceUnavailable }
    ));
    assert_eq!(capture, AudioCapture::new());

    let (capture, task) = capture.step(CaptureEvent::Start { device: None });
    assert!(matches!(task, CaptureTask::OpenDevice { device: None }));
    let (capture, _) = capture.step(CaptureEvent::DeviceOpened {
        native_rate: 48000,
        channels: 1,
        converter_built: true,
    });
    let (capture, task) = capture.step(CaptureEvent::StreamFailed);
    assert!(matches!(task, CaptureTask::ReportStartFailed { error: CaptureError::StreamFailed }));
    assert!(!capture.is_recording());
    assert_eq!(capture.activity, CaptureActivity::Waiting);
    assert!(capture.recorder.is_some());
}
