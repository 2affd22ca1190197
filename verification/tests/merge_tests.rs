use recode::merge::{merge_schedule, Channel, MergeScheduler};

#[test]
fn test_merge_interleaves_by_time() {
    // Audio frames at 0, 10, 20, 30 ticks; video frames at 5, 15, 25, 35.
    let audio: Vec<u64> = vec![0, 10, 20, 30];
    let video: Vec<u64> = vec![5, 15, 25, 35];
    let order = merge_schedule(&audio, &video);
    assert_eq!(
        order,
        vec![
            Channel::Video,
            Channel::Audio,
            Channel::Audio,
            Channel::Video,
            Channel::Audio,
            Channel::Video,
            Channel::Audio,
            Channel::Video,
        ]
    );
}

#[test]
fn test_merge_drains_after_exhaustion() {
    // Audio runs out early; every remaining video frame is still emitted.
    let audio: Vec<u64> = vec![0, 1];
    let video: Vec<u64> = vec![100, 200, 300];
    let order = merge_schedule(&audio, &video);
    assert_eq!(
        order,
        vec![
            Channel::Video,
            Channel::Audio,
            Channel::Audio,
            Channel::Video,
            Channel::Video,
        ]
    );
    let audio_picks = order.iter().filter(|c| **c == Channel::Audio).count();
    assert_eq!(audio_picks, audio.len());
    assert_eq!(order.len(), audio.len() + video.len());
}

#[test]
fn test_merge_empty_audio() {
    let audio: Vec<u64> = Vec::new();
    let video: Vec<u64> = vec![1, 2];
    let order = merge_schedule(&audio, &video);
    assert_eq!(order, vec![Channel::Video, Channel::Video]);
}

#[test]
fn test_merge_both_empty() {
    let order = merge_schedule(&Vec::new(), &Vec::new());
    assert_eq!(order, Vec::<Channel>::new());
}

#[test]
fn test_scheduler_tie_prefers_video() {
    let sched = MergeScheduler::new();
    assert_eq!(sched.pick(), Channel::Video);
}

#[test]
fn test_scheduler_exhausted_channel_never_picked() {
    let mut sched = MergeScheduler::new();
    sched.exhaust(Channel::Audio);
    assert!(!sched.is_done());
    assert_eq!(sched.pick(), Channel::Video);
    sched.record(Channel::Video, 1_000_000);
    assert_eq!(sched.pick(), Channel::Video);
    sched.exhaust(Channel::Video);
    assert!(sched.is_done());
}

#[test]
fn test_scheduler_advances_lagging_channel() {
    let mut sched = MergeScheduler::new();
    sched.record(Channel::Video, 50);
    assert_eq!(sched.pick(), Channel::Audio);
    sched.record(Channel::Audio, 60);
    assert_eq!(sched.pick(), Channel::Video);
}
