use flemme::audio::segments::{merge_segments, SpeechSegment};
use flemme::audio::window::{keep_windows, pad_front, padded_window};

#[test]
fn padded_window_copies_and_pads() {
    let audio = [1, 2, 3, 4, 5, 6, 7];
    assert_eq!(padded_window(&audio, 0, 3, 0), vec![1, 2, 3]);
    assert_eq!(padded_window(&audio, 3, 3, 0), vec![4, 5, 6]);
    assert_eq!(padded_window(&audio, 6, 3, 0), vec![7, 0, 0]);
    assert_eq!(padded_window(&audio, 6, 3, -1), vec![7, -1, -1]);
    assert_eq!(padded_window(&audio, 7, 2, 9), vec![9, 9]);
    assert_eq!(padded_window(&audio, 100, 2, 9), vec![9, 9]);
    assert_eq!(padded_window(&audio, usize::MAX, 2, 9), vec![9, 9]);
    assert_eq!(padded_window(&audio, 0, 0, 9), Vec::<i32>::new());
}

#[test]
fn keep_windows_concatenates_flagged_windows() {
    let audio = [1, 2, 3, 4, 5, 6, 7];
    assert_eq!(keep_windows(&audio, 3, &[true, true, true]), vec![1, 2, 3, 4, 5, 6, 7]);
    assert_eq!(keep_windows(&audio, 3, &[true, false, true]), vec![1, 2, 3, 7]);
    assert_eq!(keep_windows(&audio, 3, &[false, true, false]), vec![4, 5, 6]);
    assert_eq!(keep_windows(&audio, 3, &[false, false, false]), Vec::<i32>::new());
    assert_eq!(keep_windows(&audio, 7, &[true]), vec![1, 2, 3, 4, 5, 6, 7]);
    assert_eq!(keep_windows(&audio, 8, &[true]), vec![1, 2, 3, 4, 5, 6, 7]);
    assert_eq!(keep_windows(&audio, 1, &[false, true, false, true]), vec![2, 4]);
}

#[test]
fn keep_windows_treats_missing_flags_as_unflagged() {
    let audio = [1, 2, 3, 4, 5, 6, 7];
    assert_eq!(keep_windows(&audio, 3, &[true]), vec![1, 2, 3]);
    assert_eq!(keep_windows(&audio, 3, &[]), Vec::<i32>::new());
    assert_eq!(keep_windows(&audio, 3, &[false, false, true, true, true]), vec![7]);
    assert_eq!(keep_windows(&audio, 0, &[true, true]), Vec::<i32>::new());
    assert_eq!(keep_windows::<i32>(&[], 3, &[true, true]), Vec::<i32>::new());
}

#[test]
fn keep_windows_never_grows() {
    let audio: Vec<u8> = (0..100).collect();
    for size in 1..20usize {
        let flags = vec![true; 200];
        assert_eq!(keep_windows(&audio, size, &flags), audio);
        let alternating: Vec<bool> = (0..200).map(|i| i % 2 == 0).collect();
        let kept = keep_windows(&audio, size, &alternating);
        assert!(kept.len() <= audio.len());
        let expected: Vec<u8> =
            audio.iter().copied().filter(|x| (*x as usize / size) % 2 == 0).collect();
        assert_eq!(kept, expected);
    }
}

#[test]
fn merge_segments_finds_maximal_runs() {
    assert_eq!(merge_segments(&[], 512), vec![]);
    assert_eq!(merge_segments(&[false, false], 512), vec![]);
    assert_eq!(merge_segments(&[true], 512), vec![SpeechSegment { start: 0, end: 512 }]);
    assert_eq!(
        merge_segments(&[true, true, false, true, false, false, true, true, true], 10),
        vec![
            SpeechSegment { start: 0, end: 20 },
            SpeechSegment { start: 30, end: 40 },
            SpeechSegment { start: 60, end: 90 },
        ]
    );
    assert_eq!(
        merge_segments(&[false, true, true, false], 1024),
        vec![SpeechSegment { start: 1024, end: 3072 }]
    );
}

#[test]
fn merge_segments_are_ordered_and_apart() {
    let flags: Vec<bool> = (0..64).map(|i| (i * 7 + i / 3) % 5 < 2).collect();
    let segments = merge_segments(&flags, 3);
    for pair in segments.windows(2) {
        assert!(pair[0].end < pair[1].start);
    }
    for segment in segments.iter() {
        assert!(segment.start < segment.end);
        assert!(segment.end <= flags.len() * 3);
        assert_eq!(segment.start % 3, 0);
        assert_eq!(segment.end % 3, 0);
    }
    for (k, flag) in flags.iter().enumerate() {
        let covered = segments.iter().any(|s| s.start <= k * 3 && k * 3 < s.end);
        assert_eq!(covered, *flag);
    }
}

#[test]
fn extract_clamps_to_the_buffer() {
    let audio = [10, 20, 30, 40, 50];
    assert_eq!(SpeechSegment { start: 1, end: 3 }.extract(&audio), &[20, 30]);
    assert_eq!(SpeechSegment { start: 0, end: 5 }.extract(&audio), &audio[..]);
    assert_eq!(SpeechSegment { start: 3, end: 9 }.extract(&audio), &[40, 50]);
    assert_eq!(SpeechSegment { start: 5, end: 9 }.extract(&audio), &[] as &[i32]);
    assert_eq!(SpeechSegment { start: 7, end: 9 }.extract(&audio), &[] as &[i32]);
    assert_eq!(SpeechSegment { start: 2, end: 2 }.extract(&audio), &[] as &[i32]);
    assert_eq!(SpeechSegment { start: 512, end: 1024 }.duration_samples(), 512);
}

#[test]
fn pad_front_prepends_silence() {
    assert_eq!(pad_front(&[1.5f32, -2.0], 3, 0.0), vec![0.0, 0.0, 0.0, 1.5, -2.0]);
    assert_eq!(pad_front(&[7u8], 0, 0), vec![7]);
    assert_eq!(pad_front::<u8>(&[], 2, 9), vec![9, 9]);
    let audio = vec![0.25f32; 16000];
    let padded = pad_front(&audio, 2400, 0.0);
    assert_eq!(padded.len(), 18400);
    assert!(padded[..2400].iter().all(|s| *s == 0.0));
    assert_eq!(&padded[2400..], &audio[..]);
}
