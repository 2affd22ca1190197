use recode::format::{AudioFormat, VideoFormat};

#[test]
fn test_audio_format_sizes() {
    let af = AudioFormat::new(48000, 2);
    assert_eq!(af.frame_size, 2);
    // 22 ms at 48 kHz stereo: 22 * 48000 * 2 / 1000 = 2112 exactly.
    assert_eq!(af.frames_in_ms(22), 2112);
    // 450 ms: 450 * 48000 * 2 / 1000 = 43200 exactly.
    assert_eq!(af.frames_in_ms(450), 43200);
}

#[test]
fn test_audio_format_rounds_up() {
    let af = AudioFormat::new(44100, 1);
    // 22 ms at 44.1 kHz mono: 970.2 frames, rounded up.
    assert_eq!(af.frames_in_ms(22), 971);
    assert_eq!(af.frames_in_ms(0), 0);
}

#[test]
fn test_audio_format_empty() {
    let af = AudioFormat::empty();
    assert_eq!(af.rate, 0);
    assert_eq!(af.channels, 0);
    assert_eq!(af.frame_size, 0);
}

#[test]
fn test_video_format_sizes() {
    let vf = VideoFormat::new(30, 1, 640, 480);
    assert_eq!(vf.pixel_count, 640 * 480);
    assert_eq!(vf.frame_size, 4 * 640 * 480);
    // Ten seconds at 30 fps.
    assert_eq!(vf.frames_in_ms(10_000), 300);
}

#[test]
fn test_video_format_fractional_rate() {
    // NTSC 30000/1001: ten seconds hold 299.7 frames, rounded up.
    let vf = VideoFormat::new(30000, 1001, 1920, 1080);
    assert_eq!(vf.frames_in_ms(10_000), 300);
    // One second holds 29.97 frames, rounded up.
    assert_eq!(vf.frames_in_ms(1000), 30);
    assert_eq!(vf.frames_in_ms(0), 0);
}
