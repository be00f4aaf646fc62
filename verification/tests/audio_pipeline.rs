use rustfft::num_complex::Complex;
use rustfft::FftPlanner;
use shader_paper::audio::{
    capture_idle_millis, deinterleave, sample_words, spectrum_len, AudioMailbox,
};

#[test]
fn sample_words_are_little_endian() {
    let bytes = vec![0x01, 0x00, 0x00, 0x00, 0xff, 0x00, 0x00, 0x80, 0xaa];
    let words = sample_words(&bytes);
    // The trailing 0xaa does not fill a word and is dropped.
    assert_eq!(words, vec![1, 0x8000_00ff]);
}

#[test]
fn sample_words_match_float_bit_patterns() {
    let samples = [0.0f32, 1.0, -0.5, 123.456];
    let mut bytes = Vec::new();
    for s in samples {
        bytes.extend_from_slice(&s.to_le_bytes());
    }
    let words = sample_words(&bytes);
    assert_eq!(words.len(), 4);
    for (w, s) in words.iter().zip(samples.iter()) {
        assert_eq!(f32::from_bits(*w), *s);
    }
}

#[test]
fn sample_words_of_empty_buffer() {
    assert_eq!(sample_words(&vec![]), Vec::<u32>::new());
}

#[test]
fn deinterleave_splits_frames_by_channel() {
    let words = vec![1, 2, 3, 4, 5, 6, 7];
    let split = deinterleave(&words, 2);
    // Three complete two-channel frames; the seventh word has no partner
    // and is dropped.
    assert_eq!(split, vec![vec![1, 3, 5], vec![2, 4, 6]]);
}

#[test]
fn deinterleave_single_channel_is_identity() {
    let words = vec![9, 8, 7];
    assert_eq!(deinterleave(&words, 1), vec![vec![9, 8, 7]]);
}

#[test]
fn spectrum_is_half_the_waveform() {
    assert_eq!(spectrum_len(4096), 2048);
    assert_eq!(spectrum_len(3), 1);
    assert_eq!(spectrum_len(1), 0);
    assert_eq!(spectrum_len(0), 0);
}

#[test]
fn idle_wait_follows_rate_over_buffer() {
    assert_eq!(capture_idle_millis(44100, 4096), 10);
    assert_eq!(capture_idle_millis(48000, 1024), 46);
    assert_eq!(capture_idle_millis(8000, 16000), 0);
}

#[test]
fn mailbox_consumes_each_publish_exactly_once() {
    let mut m = AudioMailbox::new();
    assert!(m.ready_for_publish());
    assert!(!m.consume());
    m.publish(vec![vec![1]], vec![vec![2]]);
    assert!(!m.ready_for_publish());
    assert!(m.consume());
    assert!(!m.consume());
    assert!(m.ready_for_publish());
    // The buffers stay readable after consumption, merely stale.
    assert_eq!(m.waveforms(), &vec![vec![1]]);
    assert_eq!(m.spectra(), &vec![vec![2]]);
}

#[test]
fn mailbox_overwrites_unconsumed_publication() {
    let mut m = AudioMailbox::new();
    m.publish(vec![vec![1]], vec![vec![10]]);
    m.publish(vec![vec![2]], vec![vec![20]]);
    assert!(m.consume());
    assert_eq!(m.spectra(), &vec![vec![20]]);
    assert!(!m.consume());
}

#[test]
fn mailbox_handshake_under_fuzzed_interleaving() {
    // A small linear-congruential generator drives a random interleaving of
    // publishes and consumes; the consumer must see each publication fresh
    // exactly once, and must see it on its very next poll.
    let mut rng: u64 = 0x2545_f491_4f6c_dd1d;
    let mut m = AudioMailbox::new();
    let mut outstanding = false;
    let mut counter: u32 = 0;
    for _ in 0..10_000 {
        rng = rng.wrapping_mul(6364136223846793005).wrapping_add(1442695040888963407);
        if (rng >> 33) & 1 == 0 {
            if m.ready_for_publish() {
                counter += 1;
                m.publish(vec![vec![counter]], vec![vec![counter]]);
                outstanding = true;
            }
        } else {
            let was_fresh = m.consume();
            assert_eq!(was_fresh, outstanding);
            if was_fresh {
                assert_eq!(m.spectra(), &vec![vec![counter]]);
            }
            outstanding = false;
        }
    }
}

#[test]
fn zero_waveform_gives_all_zero_spectrum() {
    for len in [0usize, 1, 2, 16, 64, 1024] {
        let bytes = vec![0u8; len * 4];
        let words = sample_words(&bytes);
        let channels = deinterleave(&words, 1);
        let wave = &channels[0];
        assert_eq!(wave.len(), len);
        let mut buf: Vec<Complex<f32>> = wave
            .iter()
            .map(|w| Complex { re: f32::from_bits(*w), im: 0.0 })
            .collect();
        let mut planner = FftPlanner::<f32>::new();
        let fft = planner.plan_fft_forward(len);
        fft.process(&mut buf);
        let spectrum: Vec<f32> = buf
            .iter()
            .take(spectrum_len(len))
            .map(|c| c.norm())
            .collect();
        assert_eq!(spectrum.len(), len / 2);
        assert!(spectrum.iter().all(|m| *m == 0.0));
    }
}

#[test]
fn sinusoid_peaks_at_its_frequency_bin() {
    // A pure 8 Hz sinusoid sampled at 64 Hz over 64 samples must peak at bin
    // round(f * L / R) = 8 of the half spectrum.
    let rate = 64.0f32;
    let len = 64usize;
    let freq = 8.0f32;
    let mut bytes = Vec::new();
    for i in 0..len {
        let t = i as f32 / rate;
        let s = (2.0 * std::f32::consts::PI * freq * t).sin();
        bytes.extend_from_slice(&s.to_le_bytes());
    }
    let words = sample_words(&bytes);
    let channels = deinterleave(&words, 1);
    let mut buf: Vec<Complex<f32>> = channels[0]
        .iter()
        .map(|w| Complex { re: f32::from_bits(*w), im: 0.0 })
        .collect();
    let mut planner = FftPlanner::<f32>::new();
    let fft = planner.plan_fft_forward(len);
    fft.process(&mut buf);
    let spectrum: Vec<f32> = buf
        .iter()
        .take(spectrum_len(len))
        .map(|c| c.norm())
        .collect();
    let peak = spectrum
        .iter()
        .enumerate()
        .max_by(|a, b| a.1.partial_cmp(b.1).unwrap())
        .unwrap()
        .0;
    let expected = (freq * len as f32 / rate).round() as usize;
    assert_eq!(peak, expected);
}

#[test]
fn interleaved_stereo_capture_reaches_both_channels() {
    // Two channels, three frames: left gets 1.0, 2.0, 3.0 and right gets
    // -1.0, -2.0, -3.0, exactly as the device interleaved them.
    let frames = [(1.0f32, -1.0f32), (2.0, -2.0), (3.0, -3.0)];
    let mut bytes = Vec::new();
    for (l, r) in frames {
        bytes.extend_from_slice(&l.to_le_bytes());
        bytes.extend_from_slice(&r.to_le_bytes());
    }
    let words = sample_words(&bytes);
    let channels = deinterleave(&words, 2);
    let left: Vec<f32> = channels[0].iter().map(|w| f32::from_bits(*w)).collect();
    let right: Vec<f32> = channels[1].iter().map(|w| f32::from_bits(*w)).collect();
    assert_eq!(left, vec![1.0, 2.0, 3.0]);
    assert_eq!(right, vec![-1.0, -2.0, -3.0]);
}
