use flemme::audio::segments::SpeechSegment;
use flemme::audio::vad::{Inference, Probability, VadError, VoiceActivityDetector, STATE_LEN};
use std::cell::RefCell;

fn prob(x: f32) -> Probability {
    Probability::from_bits(x.to_bits())
}

/// Speech where some sample of the window is louder than 0.5. The state
/// counts the windows seen since the last reset.
fn loudness(window: Vec<f32>, state: Vec<f32>) -> Option<Inference<f32>> {
    let loud = window.iter().any(|s| s.abs() > 0.5);
    let next = vec![state[0] + 1.0; STATE_LEN];
    Some(Inference { probability: prob(if loud { 0.9 } else { 0.1 }), state: next })
}

/// Speech on every window, but only for the first two windows after a reset.
fn fading(_window: Vec<f32>, state: Vec<f32>) -> Option<Inference<f32>> {
    let next = vec![state[0] + 1.0; STATE_LEN];
    Some(Inference { probability: prob(if state[0] < 2.0 { 0.8 } else { 0.2 }), state: next })
}

fn tone(len: usize, loud_at: &[usize]) -> Vec<f32> {
    let mut audio = vec![0.01f32; len];
    for &i in loud_at {
        audio[i] = 0.9;
    }
    audio
}

#[test]
fn test_speech_segment_duration() {
    let segment = SpeechSegment { start: 0, end: 16000 };
    assert_eq!(segment.duration_samples(), 16000);
    assert_eq!(segment.duration_samples() as f32 / 16000 as f32, 1.0);
}

#[test]
fn test_invalid_threshold() {
    let result = VoiceActivityDetector::<f32>::new(prob(1.5), 0.0);
    assert!(result.is_err());
    assert_eq!(result.err(), Some(VadError::InvalidThreshold));
}

#[test]
fn threshold_bounds_are_inclusive() {
    assert!(VoiceActivityDetector::<f32>::new(prob(0.0), 0.0).is_ok());
    assert!(VoiceActivityDetector::<f32>::new(prob(-0.0), 0.0).is_ok());
    assert!(VoiceActivityDetector::<f32>::new(prob(1.0), 0.0).is_ok());
    assert!(VoiceActivityDetector::<f32>::new(prob(0.5), 0.0).is_ok());
    assert!(VoiceActivityDetector::<f32>::new(prob(1.0000001), 0.0).is_err());
    assert!(VoiceActivityDetector::<f32>::new(prob(-0.0000001), 0.0).is_err());
    assert!(VoiceActivityDetector::<f32>::new(prob(f32::NAN), 0.0).is_err());
    assert!(VoiceActivityDetector::<f32>::new(prob(f32::INFINITY), 0.0).is_err());
    assert!(VoiceActivityDetector::<f32>::new(prob(f32::NEG_INFINITY), 0.0).is_err());
}

#[test]
fn default_threshold_is_three_tenths() {
    let vad = VoiceActivityDetector::<f32>::new_default(0.0).unwrap();
    assert_eq!(vad.threshold(), prob(0.3));
    assert_eq!(f32::from_bits(vad.threshold().to_bits()), 0.3f32);
    assert_eq!(Probability::DEFAULT_THRESHOLD_BITS, 0.3f32.to_bits());
    assert_eq!(Probability::ONE_BITS, 1.0f32.to_bits());
}

#[test]
fn set_threshold_validates() {
    let mut vad = VoiceActivityDetector::<f32>::new_default(0.0).unwrap();
    assert_eq!(vad.set_threshold(prob(0.7)), Ok(()));
    assert_eq!(vad.threshold(), prob(0.7));
    assert_eq!(vad.set_threshold(prob(1.5)), Err(VadError::InvalidThreshold));
    assert_eq!(vad.threshold(), prob(0.7));
    assert_eq!(vad.set_threshold(prob(f32::NAN)), Err(VadError::InvalidThreshold));
    assert_eq!(vad.threshold(), prob(0.7));
}

#[test]
fn probability_order_agrees_with_numbers() {
    let values = [
        0.0f32,
        -0.0,
        0.3,
        0.30000001,
        0.29999998,
        1.0,
        0.5,
        -0.5,
        -1.0,
        1e-40,
        -1e-40,
        f32::MIN_POSITIVE,
        f32::MAX,
        f32::MIN,
        f32::INFINITY,
        f32::NEG_INFINITY,
        f32::NAN,
    ];
    for &a in values.iter() {
        for &b in values.iter() {
            assert_eq!(prob(a).is_above(prob(b)), a > b, "{} > {}", a, b);
        }
        assert_eq!(prob(a).is_valid(), (0.0..=1.0).contains(&a), "{}", a);
    }
}

#[test]
fn detect_rejects_other_window_sizes() {
    let calls = RefCell::new(0usize);
    let classify = |w: Vec<f32>, s: Vec<f32>| {
        *calls.borrow_mut() += 1;
        loudness(w, s)
    };
    let mut vad = VoiceActivityDetector::<f32>::new_default(0.0).unwrap();
    for len in [0usize, 1, 256, 511, 513, 1000, 1023, 1025, 1535, 1537, 2048, 16000] {
        let window = vec![0.9f32; len];
        assert_eq!(vad.detect(&window, &classify), Err(VadError::InvalidWindowSize));
        assert!(!vad.is_speech(&window, &classify));
    }
    assert_eq!(*calls.borrow(), 0);
    assert_eq!(vad.state(), vec![0.0f32; STATE_LEN]);
    for len in [512usize, 1024, 1536] {
        let window = vec![0.9f32; len];
        assert_eq!(vad.detect(&window, &classify), Ok(prob(0.9)));
    }
    assert_eq!(*calls.borrow(), 3);
}

#[test]
fn detect_advances_state_and_reset_zeroes_it() {
    let mut vad = VoiceActivityDetector::<f32>::new_default(0.0).unwrap();
    assert_eq!(vad.state(), vec![0.0f32; 256]);
    let window = vec![0.0f32; 512];
    assert_eq!(vad.detect(&window, &loudness), Ok(prob(0.1)));
    assert_eq!(vad.state(), vec![1.0f32; 256]);
    assert_eq!(vad.detect(&window, &loudness), Ok(prob(0.1)));
    assert_eq!(vad.state(), vec![2.0f32; 256]);
    vad.reset();
    assert_eq!(vad.state(), vec![0.0f32; 256]);
    assert_eq!(vad.threshold(), prob(0.3));
}

#[test]
fn classifier_failure_is_silence_and_keeps_state() {
    let failing = |_w: Vec<f32>, _s: Vec<f32>| -> Option<Inference<f32>> { None };
    let misshapen = |_w: Vec<f32>, _s: Vec<f32>| -> Option<Inference<f32>> {
        Some(Inference { probability: prob(0.99), state: vec![5.0; 255] })
    };
    let mut vad = VoiceActivityDetector::<f32>::new_default(0.0).unwrap();
    let window = vec![0.9f32; 512];
    assert_eq!(vad.detect(&window, &loudness), Ok(prob(0.9)));
    assert_eq!(vad.detect(&window, &failing), Err(VadError::InferenceFailed));
    assert_eq!(vad.state(), vec![1.0f32; 256]);
    assert!(!vad.is_speech(&window, &failing));
    assert_eq!(vad.detect(&window, &misshapen), Err(VadError::InvalidState));
    assert!(!vad.is_speech(&window, &misshapen));
    assert_eq!(vad.state(), vec![1.0f32; 256]);
    let audio = vec![0.9f32; 2048];
    assert_eq!(vad.filter_silence(&audio, 512, &failing), Vec::<f32>::new());
    assert!(vad.get_speech_segments(&audio, 512, &misshapen).is_empty());
}

#[test]
fn is_speech_compares_strictly_against_threshold() {
    let at = |x: f32| {
        move |_w: Vec<f32>, s: Vec<f32>| -> Option<Inference<f32>> {
            Some(Inference { probability: prob(x), state: s })
        }
    };
    let mut vad = VoiceActivityDetector::<f32>::new_default(0.0).unwrap();
    let window = vec![0.0f32; 512];
    assert!(!vad.is_speech(&window, &at(0.3)));
    assert!(vad.is_speech(&window, &at(0.30000004)));
    assert!(!vad.is_speech(&window, &at(0.29999998)));
    assert!(!vad.is_speech(&window, &at(f32::NAN)));
    assert!(vad.is_speech(&window, &at(1.0)));
    assert!(!vad.is_speech(&window, &at(-1.0)));
}

#[test]
fn two_seconds_of_silence_filter_to_nothing() {
    let scores = RefCell::new(Vec::new());
    let quiet = |w: Vec<f32>, s: Vec<f32>| {
        let out = loudness(w, s);
        scores.borrow_mut().push(0.1f32);
        out
    };
    let mut vad = VoiceActivityDetector::<f32>::new(prob(0.3), 0.0).unwrap();
    let audio = vec![0.0f32; 32000];
    let filtered = vad.filter_silence(&audio, 512, &quiet);
    assert!(filtered.is_empty());
    assert_eq!(scores.borrow().len(), 63);
    assert!(scores.borrow().iter().all(|s| *s <= 0.3));
}

#[test]
fn filter_silence_keeps_speech_windows_in_order() {
    let mut vad = VoiceActivityDetector::<f32>::new_default(0.0).unwrap();
    let mut audio: Vec<f32> = (0..2048).map(|i| (i as f32) * 0.0001).collect();
    audio[600] = 0.9;
    audio[1600] = -0.9;
    let filtered = vad.filter_silence(&audio, 512, &loudness);
    let mut expected = audio[512..1024].to_vec();
    expected.extend_from_slice(&audio[1536..2048]);
    assert_eq!(filtered, expected);
    assert_eq!(filtered.len(), 1024);
    assert!(filtered.len() <= audio.len());
}

#[test]
fn filter_silence_pads_last_window_for_classification_only() {
    let seen = RefCell::new(Vec::new());
    let recording = |w: Vec<f32>, s: Vec<f32>| {
        seen.borrow_mut().push(w.clone());
        loudness(w, s)
    };
    let mut vad = VoiceActivityDetector::<f32>::new_default(0.0).unwrap();
    let audio = tone(1300, &[1200]);
    let filtered = vad.filter_silence(&audio, 512, &recording);
    assert_eq!(filtered, audio[1024..1300].to_vec());
    assert_eq!(filtered.len(), 276);
    let seen = seen.borrow();
    assert_eq!(seen.len(), 3);
    assert!(seen.iter().all(|w| w.len() == 512));
    assert_eq!(seen[2][..276], audio[1024..1300]);
    assert_eq!(seen[2][276..], vec![0.0f32; 236][..]);
}

#[test]
fn filter_silence_of_empty_buffer_is_empty() {
    let mut vad = VoiceActivityDetector::<f32>::new_default(0.0).unwrap();
    assert!(vad.filter_silence(&[], 512, &loudness).is_empty());
    assert!(vad.get_speech_segments(&[], 512, &loudness).is_empty());
}

#[test]
fn unsupported_window_size_classifies_nothing_as_speech() {
    let calls = RefCell::new(0usize);
    let counting = |w: Vec<f32>, s: Vec<f32>| {
        *calls.borrow_mut() += 1;
        loudness(w, s)
    };
    let mut vad = VoiceActivityDetector::<f32>::new_default(0.0).unwrap();
    let audio = vec![0.9f32; 4000];
    for size in [0usize, 1, 100, 500, 513, 2048] {
        assert!(vad.filter_silence(&audio, size, &counting).is_empty());
        assert!(vad.get_speech_segments(&audio, size, &counting).is_empty());
    }
    assert_eq!(*calls.borrow(), 0);
}

#[test]
fn segments_merge_consecutive_speech_windows() {
    let mut vad = VoiceActivityDetector::<f32>::new_default(0.0).unwrap();
    let audio = tone(512 * 8, &[10, 600, 512 * 3 + 5, 512 * 5, 512 * 6 + 1, 512 * 7 + 511]);
    let segments = vad.get_speech_segments(&audio, 512, &loudness);
    assert_eq!(
        segments,
        vec![
            SpeechSegment { start: 0, end: 1024 },
            SpeechSegment { start: 1536, end: 2048 },
            SpeechSegment { start: 2560, end: 4096 },
        ]
    );
}

#[test]
fn segments_leave_out_the_trailing_partial_window() {
    let mut vad = VoiceActivityDetector::<f32>::new_default(0.0).unwrap();
    let audio = tone(1300, &[100, 1200]);
    let segments = vad.get_speech_segments(&audio, 512, &loudness);
    assert_eq!(segments, vec![SpeechSegment { start: 0, end: 512 }]);
    let filtered = vad.filter_silence(&audio, 512, &loudness);
    let mut expected = audio[0..512].to_vec();
    expected.extend_from_slice(&audio[1024..1300]);
    assert_eq!(filtered, expected);

    let all_loud = vec![0.9f32; 1535];
    let segments = vad.get_speech_segments(&all_loud, 512, &loudness);
    assert_eq!(segments, vec![SpeechSegment { start: 0, end: 1024 }]);
    for segment in segments.iter() {
        assert!(segment.end <= (all_loud.len() / 512) * 512);
        assert!(segment.start < segment.end);
    }
    let segments = vad.get_speech_segments(&vec![0.9f32; 511], 512, &loudness);
    assert!(segments.is_empty());
}

#[test]
fn larger_windows_are_supported() {
    let mut vad = VoiceActivityDetector::<f32>::new_default(0.0).unwrap();
    let audio = tone(4096, &[1500, 3100]);
    assert_eq!(
        vad.get_speech_segments(&audio, 1024, &loudness),
        vec![SpeechSegment { start: 1024, end: 2048 }, SpeechSegment { start: 3072, end: 4096 }]
    );
    assert_eq!(
        vad.get_speech_segments(&audio, 1536, &loudness),
        vec![SpeechSegment { start: 0, end: 1536 }]
    );
    assert_eq!(vad.filter_silence(&audio, 1536, &loudness), {
        let mut kept = audio[0..1536].to_vec();
        kept.extend_from_slice(&audio[3072..4096]);
        kept
    });
}

#[test]
fn processing_twice_gives_identical_results() {
    let mut vad = VoiceActivityDetector::<f32>::new_default(0.0).unwrap();
    let audio = vec![0.2f32; 512 * 5 + 17];
    vad.reset();
    let first = vad.filter_silence(&audio, 512, &fading);
    let state_after_first = vad.state();
    let second = vad.filter_silence(&audio, 512, &fading);
    assert_eq!(first, second);
    assert_eq!(first, audio[0..1024].to_vec());
    assert_eq!(vad.state(), state_after_first);
    assert_eq!(vad.state(), vec![6.0f32; 256]);

    let segments_first = vad.get_speech_segments(&audio, 512, &fading);
    let segments_second = vad.get_speech_segments(&audio, 512, &fading);
    assert_eq!(segments_first, segments_second);
    assert_eq!(segments_first, vec![SpeechSegment { start: 0, end: 1024 }]);
    assert_eq!(vad.state(), vec![5.0f32; 256]);
}

#[test]
fn detector_works_on_integer_samples() {
    let classify = |w: Vec<i16>, s: Vec<i16>| -> Option<Inference<i16>> {
        let loud = w.iter().any(|x| x.abs() > 1000);
        Some(Inference { probability: prob(if loud { 1.0 } else { 0.0 }), state: s })
    };
    let mut vad = VoiceActivityDetector::<i16>::new_default(0).unwrap();
    let mut audio = vec![3i16; 1100];
    audio[1050] = 20000;
    assert_eq!(vad.filter_silence(&audio, 512, &classify), audio[1024..].to_vec());
}

#[test]
fn accept_takes_in_an_answer() {
    let mut vad = VoiceActivityDetector::<f32>::new_default(0.0).unwrap();
    let good = Inference { probability: prob(0.75), state: vec![3.0f32; STATE_LEN] };
    assert_eq!(vad.accept(Some(good)), Ok(prob(0.75)));
    assert_eq!(vad.state(), vec![3.0f32; STATE_LEN]);
    assert_eq!(vad.accept(None), Err(VadError::InferenceFailed));
    assert_eq!(vad.state(), vec![3.0f32; STATE_LEN]);
    let long = Inference { probability: prob(0.75), state: vec![4.0f32; STATE_LEN + 1] };
    assert_eq!(vad.accept(Some(long)), Err(VadError::InvalidState));
    let empty = Inference { probability: prob(0.75), state: vec![] };
    assert_eq!(vad.accept(Some(empty)), Err(VadError::InvalidState));
    assert_eq!(vad.state(), vec![3.0f32; STATE_LEN]);
}
