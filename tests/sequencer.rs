use sinewave::sequencer::{write_stereo, AudioPhase, AudioState, Frame, Level, Segment};
use sinewave::taus88::Taus88;

const RATE: u32 = 44100;

#[test]
fn segment_draws_from_zero_seed_are_reproducible() {
    let mut rng = Taus88::from_seed([0; 12]);
    let expected = [
        Segment::Silence { duration: 9702 },
        Segment::Tone { midi: 97, duration: 6615 },
        Segment::Tone { midi: 95, duration: 10848 },
        Segment::Tone { midi: 70, duration: 13671 },
        Segment::Tone { midi: 110, duration: 13274 },
        Segment::Tone { midi: 99, duration: 16713 },
        Segment::Tone { midi: 82, duration: 11510 },
        Segment::Tone { midi: 105, duration: 7056 },
    ];
    for e in expected {
        assert_eq!(AudioState::randomize_params(&mut rng, RATE, 69, 115), e);
    }
}

#[test]
fn segment_draws_stay_within_bounds_even_for_reversed_range() {
    let mut rng = Taus88::from_seed([3; 12]);
    let mut tones = 0;
    for _ in 0..2000 {
        let seg = AudioState::randomize_params(&mut rng, RATE, 80, 60);
        let duration = match seg {
            Segment::Tone { midi, duration } => {
                assert!((60..=80).contains(&midi));
                tones += 1;
                duration
            }
            Segment::Silence { duration } => duration,
        };
        assert!(duration >= 150 * 44100 / 1000 && duration <= 400 * 44100 / 1000);
    }
    assert!(tones > 1500 && tones < 2000);
}

#[test]
fn single_note_range_always_gives_that_note() {
    let mut rng = Taus88::from_seed([8; 12]);
    for _ in 0..200 {
        if let Segment::Tone { midi, .. } = AudioState::randomize_params(&mut rng, RATE, 72, 72) {
            assert_eq!(midi, 72);
        }
    }
}

#[test]
fn session_opens_with_half_second_pause() {
    let st = AudioState::new(RATE);
    assert_eq!(st.phase(), AudioPhase::Paused);
    assert_eq!(st.samples_left(), (0, 22050, 0));
    assert!(st.fast_path_applies(22050));
    assert!(!st.fast_path_applies(22051));
}

fn frame(level: Level) -> Frame {
    Frame { level, glide_to: None }
}

#[test]
fn tone_fades_in_plays_and_fades_out() {
    let mut st = AudioState::new(RATE);
    let mut plan = vec![frame(Level::Full); 22050];
    st.fill(&mut plan, 69, 115);
    assert!(plan.iter().all(|f| *f == frame(Level::Silent)));
    // first draw: a silence of 9702 samples
    let mut pause = vec![frame(Level::Full); 9702];
    st.fill(&mut pause, 69, 115);
    assert!(pause.iter().all(|f| *f == frame(Level::Silent)));
    assert_eq!(st.samples_left().1, 0);
    // second draw: note 97 for 6615 samples
    let first = st.next_frame(69, 115);
    assert_eq!(first, Frame { level: Level::Ramp(0), glide_to: Some(97) });
    assert_eq!(st.phase(), AudioPhase::FadingIn);
    for k in 1..64 {
        assert_eq!(st.next_frame(69, 115), frame(Level::Ramp(k)));
    }
    for _ in 0..6615 {
        assert_eq!(st.next_frame(69, 115), frame(Level::Full));
    }
    assert_eq!(st.phase(), AudioPhase::Playing);
    for k in (0..64).rev() {
        assert_eq!(st.next_frame(69, 115), frame(Level::Ramp(k)));
    }
    assert_eq!(st.phase(), AudioPhase::FadingOut);
    let next = st.next_frame(69, 115);
    assert_eq!(next, Frame { level: Level::Ramp(0), glide_to: Some(95) });
}

#[test]
fn fast_and_slow_paths_agree() {
    let mut fast = AudioState::new(RATE);
    let mut slow = AudioState::new(RATE);
    assert!(fast.fast_path_applies(1000));
    let level = fast.advance_bulk(1000);
    for _ in 0..1000 {
        assert_eq!(slow.next_frame(69, 115), frame(level));
    }
    assert_eq!(fast.samples_left(), slow.samples_left());
    assert_eq!(fast.phase(), slow.phase());

    // move both into a steady tone and compare there too
    for _ in 0..(21050 + 9702 + 64 + 10) {
        let a = fast.next_frame(69, 115);
        let b = slow.next_frame(69, 115);
        assert_eq!(a, b);
    }
    assert_eq!(fast.phase(), AudioPhase::Playing);
    assert!(fast.fast_path_applies(512));
    let level = fast.advance_bulk(512);
    assert_eq!(level, Level::Full);
    for _ in 0..512 {
        assert_eq!(slow.next_frame(69, 115), frame(Level::Full));
    }
    assert_eq!(fast.samples_left(), slow.samples_left());
}

#[test]
fn fill_takes_either_path_with_the_same_result() {
    let mut a = AudioState::new(RATE);
    let mut b = AudioState::new(RATE);
    let mut plan_a = vec![frame(Level::Full); 40000];
    a.fill(&mut plan_a, 60, 90);
    let mut plan_b = Vec::new();
    for _ in 0..40000 {
        plan_b.push(b.next_frame(60, 90));
    }
    assert_eq!(plan_a, plan_b);
    assert_eq!(a.samples_left(), b.samples_left());
    assert_eq!(a.phase(), b.phase());
}

#[test]
fn left_channel_is_always_silent() {
    let mut data = vec![7.5f32; 8];
    for i in 0..4 {
        write_stereo(&mut data, i, 0.0f32, 0.25 * i as f32);
    }
    assert_eq!(data, vec![0.0, 0.0, 0.0, 0.25, 0.0, 0.5, 0.0, 0.75]);
    let mut one = vec![1.0f32, 1.0, 1.0, 1.0];
    write_stereo(&mut one, 1, 0.0f32, -0.5);
    assert_eq!(one, vec![1.0, 1.0, 0.0, -0.5]);
}
