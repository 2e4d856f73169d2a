use rg3d_sound_sdl::format::desired_spec;
use rg3d_sound_sdl::frames::{copy_from_tuple_slice, to_tuple_slice};

#[test]
fn to_tuple_slice_pairs_consecutive_samples() {
    let raw: [f32; 6] = [0.1, -0.1, 0.2, -0.2, 0.3, -0.3];
    let frames = to_tuple_slice(&raw);
    assert_eq!(frames, vec![(0.1, -0.1), (0.2, -0.2), (0.3, -0.3)]);
}

#[test]
fn to_tuple_slice_halves_the_length() {
    for n in [0usize, 2, 4, 64, 8208] {
        let raw = vec![0.0f32; n];
        assert_eq!(to_tuple_slice(&raw).len(), n / 2);
    }
}

#[test]
fn to_tuple_slice_of_an_empty_buffer_is_empty() {
    let raw: [f32; 0] = [];
    assert!(to_tuple_slice(&raw).is_empty());
}

#[test]
fn to_tuple_slice_keeps_left_before_right() {
    let raw: Vec<u32> = (0..10).collect();
    let frames = to_tuple_slice(&raw);
    for (i, &(left, right)) in frames.iter().enumerate() {
        assert_eq!(left as usize, 2 * i);
        assert_eq!(right as usize, 2 * i + 1);
    }
}

#[test]
fn copy_from_tuple_slice_interleaves_the_frames() {
    let frames = [(1.0f32, 2.0f32), (3.0, 4.0), (5.0, 6.0)];
    let mut raw = [0.0f32; 6];
    copy_from_tuple_slice(&mut raw, &frames);
    assert_eq!(raw, [1.0, 2.0, 3.0, 4.0, 5.0, 6.0]);
}

#[test]
fn copy_from_tuple_slice_overwrites_every_sample() {
    let frames = [(0.0f32, 0.0f32); 4];
    let mut raw = [9.0f32; 8];
    copy_from_tuple_slice(&mut raw, &frames);
    assert_eq!(raw, [0.0f32; 8]);
}

#[test]
fn copy_from_tuple_slice_of_no_frames_changes_nothing() {
    let frames: [(f32, f32); 0] = [];
    let mut raw: [f32; 0] = [];
    copy_from_tuple_slice(&mut raw, &frames);
    assert_eq!(raw.len(), 0);
}

#[test]
fn pairing_then_flattening_gives_the_buffer_back() {
    let raw: Vec<f32> = (0..32).map(|k| k as f32 * 0.25 - 4.0).collect();
    let frames = to_tuple_slice(&raw);
    let mut back = vec![0.0f32; raw.len()];
    copy_from_tuple_slice(&mut back, &frames);
    assert_eq!(back, raw);
}

#[test]
fn flattening_then_pairing_gives_the_frames_back() {
    let frames: Vec<(i16, i16)> = (0..16).map(|i| (i, -i)).collect();
    let mut raw = vec![0i16; 32];
    copy_from_tuple_slice(&mut raw, &frames);
    assert_eq!(to_tuple_slice(&raw), frames);
}

#[test]
fn a_frame_written_at_i_shows_at_samples_2i_and_2i_plus_1() {
    let raw: Vec<f32> = vec![0.0, 0.5, 1.0, 1.5, 2.0, 2.5, 3.0, 3.5];
    for i in 0..raw.len() / 2 {
        let mut frames = to_tuple_slice(&raw);
        frames[i] = (-7.0, 7.0);
        let mut written = raw.clone();
        copy_from_tuple_slice(&mut written, &frames);
        let mut expected = raw.clone();
        expected[2 * i] = -7.0;
        expected[2 * i + 1] = 7.0;
        assert_eq!(written, expected);
    }
}

#[test]
fn a_sample_written_at_k_shows_in_frame_k_half() {
    let raw: Vec<f32> = vec![0.0, 0.5, 1.0, 1.5, 2.0, 2.5];
    for k in 0..raw.len() {
        let mut changed = raw.clone();
        changed[k] = 9.0;
        let mut expected = to_tuple_slice(&raw);
        if k % 2 == 0 {
            expected[k / 2].0 = 9.0;
        } else {
            expected[k / 2].1 = 9.0;
        }
        assert_eq!(to_tuple_slice(&changed), expected);
    }
}

#[test]
fn a_buffer_of_the_negotiated_size_holds_the_requested_frames() {
    let desired = desired_spec(44_100, 4104).unwrap();
    let samples = desired.channel_count as usize * desired.frames_per_callback as usize;
    let raw = vec![0.0f32; samples];
    assert_eq!(raw.len() % 2, 0);
    assert_eq!(to_tuple_slice(&raw).len(), desired.frames_per_callback as usize);
}

#[test]
fn repeated_silent_renders_leave_silence() {
    let mut raw = vec![0.25f32; 2 * 4104];
    for _ in 0..8 {
        let mut frames = to_tuple_slice(&raw);
        assert_eq!(frames.len(), 4104);
        frames.fill((0.0, 0.0));
        copy_from_tuple_slice(&mut raw, &frames);
        assert!(raw.iter().all(|&sample| sample == 0.0));
    }
}

#[test]
fn a_render_that_adds_to_the_frames_sees_what_the_buffer_held() {
    let mut raw: Vec<f32> = vec![1.0, 2.0, 3.0, 4.0];
    let mut frames = to_tuple_slice(&raw);
    for frame in frames.iter_mut() {
        frame.0 += 0.5;
        frame.1 -= 0.5;
    }
    copy_from_tuple_slice(&mut raw, &frames);
    assert_eq!(raw, vec![1.5, 1.5, 3.5, 3.5]);
}
