use pitch::config::FrameConfig;
use pitch::pipeline::{
    Capture, CaptureStep, FrameCache, FrameQueue, GateAction, PlayState, PlaybackStep,
    HIGH_WATER, LABEL_PERIOD, PLAYBACK_BACKLOG,
};

#[test]
fn queue_never_exceeds_high_water_mark() {
    let mut q = FrameQueue::new();
    let mut max_len = 0;
    for i in 0..2000u32 {
        let queued = q.offer(i);
        assert_eq!(queued, i <= 1000);
        max_len = max_len.max(q.len());
    }
    assert_eq!(HIGH_WATER, 1000);
    assert_eq!(max_len, 1001);
    assert_eq!(q.len(), 1001);
    assert!(!q.has_room());
}

#[test]
fn queue_drops_newest_and_keeps_order() {
    let mut q = FrameQueue::new();
    for i in 0..1500u32 {
        q.offer(i);
    }
    // The backlog is far above the playback limit: nothing is synthesised,
    // but the oldest frames are still taken in order.
    assert_eq!(q.next_for_playback(), PlaybackStep::Silence);
    let mut taken = 1;
    while q.len() > PLAYBACK_BACKLOG + 1 {
        assert_eq!(q.next_for_playback(), PlaybackStep::Silence);
        taken += 1;
    }
    assert_eq!(taken, 1001 - 11);
    assert_eq!(
        q.next_for_playback(),
        PlaybackStep::Synthesise(Some(990))
    );
    for expected in 991..=1000u32 {
        assert_eq!(
            q.next_for_playback(),
            PlaybackStep::Synthesise(Some(expected))
        );
    }
    assert_eq!(q.next_for_playback(), PlaybackStep::Synthesise(None));
    assert!(q.has_room());
}

#[test]
fn playback_plays_at_the_backlog_limit() {
    let mut q = FrameQueue::new();
    for i in 0..11u32 {
        q.offer(i);
    }
    assert_eq!(q.next_for_playback(), PlaybackStep::Synthesise(Some(0)));
    assert_eq!(q.len(), 10);
    let mut q2 = FrameQueue::new();
    for i in 0..12u32 {
        q2.offer(i);
    }
    assert_eq!(q2.next_for_playback(), PlaybackStep::Silence);
    assert_eq!(q2.len(), 11);
}

#[test]
fn capture_collects_hops_of_step_size() {
    let c = FrameConfig::new(48000, 8, 3).unwrap();
    let mut cap: Capture<i32> = Capture::new(&c);
    assert!(!cap.is_running());
    assert_eq!(cap.on_sample(1, true), CaptureStep::Ignored);
    cap.start();
    assert!(cap.is_running());
    assert_eq!(cap.on_sample(1, true), CaptureStep::Collected);
    assert_eq!(cap.on_sample(2, true), CaptureStep::Collected);
    assert_eq!(
        cap.on_sample(3, true),
        CaptureStep::Analyse {
            hop: vec![1, 2, 3],
            refresh_labels: false
        }
    );
    assert_eq!(cap.on_sample(4, false), CaptureStep::Collected);
    assert_eq!(cap.on_sample(5, false), CaptureStep::Collected);
    assert_eq!(cap.on_sample(6, false), CaptureStep::Dropped);
    assert_eq!(cap.on_sample(7, true), CaptureStep::Collected);
}

#[test]
fn capture_stop_keeps_pending_hop() {
    let c = FrameConfig::new(48000, 4, 2).unwrap();
    let mut cap: Capture<i32> = Capture::new(&c);
    cap.start();
    assert_eq!(cap.on_sample(1, true), CaptureStep::Collected);
    cap.stop();
    assert_eq!(cap.on_sample(2, true), CaptureStep::Ignored);
    assert_eq!(cap.on_sample(3, true), CaptureStep::Ignored);
    cap.start();
    assert_eq!(
        cap.on_sample(4, true),
        CaptureStep::Analyse {
            hop: vec![1, 4],
            refresh_labels: false
        }
    );
}

#[test]
fn labels_refresh_every_twentieth_hop() {
    let c = FrameConfig::new(48000, 2, 1).unwrap();
    let mut cap: Capture<i32> = Capture::new(&c);
    cap.start();
    let mut refreshed = vec![];
    for i in 1..=60 {
        // Dropped hops count as well.
        let room = i % 7 != 0;
        match cap.on_sample(i, room) {
            CaptureStep::Analyse { hop, refresh_labels } => {
                assert_eq!(hop, vec![i]);
                if refresh_labels {
                    refreshed.push(i);
                }
            }
            CaptureStep::Dropped => assert!(!room),
            other => panic!("unexpected step {:?}", other),
        }
    }
    assert_eq!(LABEL_PERIOD, 20);
    assert_eq!(refreshed, vec![20, 40, 60]);
}

#[test]
fn frame_cache_holds_last_frame() {
    let mut cache = FrameCache::new(0u32);
    assert_eq!(*cache.current(), 0);
    cache.remember(None);
    assert_eq!(*cache.current(), 0);
    cache.remember(Some(5));
    assert_eq!(*cache.current(), 5);
    cache.remember(None);
    cache.remember(None);
    assert_eq!(*cache.current(), 5);
    cache.remember(Some(6));
    assert_eq!(*cache.current(), 6);
}

#[test]
fn stop_gate_holds_last_frame_and_resumes() {
    let c = FrameConfig::new(48000, 4, 1).unwrap();
    let mut cap: Capture<u32> = Capture::new(&c);
    let mut queue = FrameQueue::new();
    let mut cache = FrameCache::new(0u32);
    let (mut state, action) = PlayState::Idle.press();
    assert_eq!(action, GateAction::Start);
    assert!(state.is_playing());
    cap.start();

    let mut played = vec![];
    let mut next_sample = 1u32;
    let mut cycle = |cap: &mut Capture<u32>,
                     queue: &mut FrameQueue<u32>,
                     cache: &mut FrameCache<u32>,
                     played: &mut Vec<u32>| {
        // One recorded sample becomes one hop; the frame is the sample itself.
        if let CaptureStep::Analyse { hop, .. } = cap.on_sample(next_sample, queue.has_room()) {
            queue.offer(hop[0]);
        }
        next_sample += 1;
        match queue.next_for_playback() {
            PlaybackStep::Synthesise(frame) => {
                cache.remember(frame);
                played.push(*cache.current());
            }
            PlaybackStep::Silence => {}
        }
    };

    for _ in 0..3 {
        cycle(&mut cap, &mut queue, &mut cache, &mut played);
    }
    assert_eq!(played, vec![1, 2, 3]);

    let (s, action) = state.press();
    state = s;
    assert_eq!(action, GateAction::Stop);
    assert!(!state.is_playing());
    cap.stop();
    for _ in 0..3 {
        cycle(&mut cap, &mut queue, &mut cache, &mut played);
    }
    // Output does not go silent: the last frame is held.
    assert_eq!(played, vec![1, 2, 3, 3, 3, 3]);

    let (s, action) = state.press();
    state = s;
    assert_eq!(action, GateAction::Start);
    assert!(state.is_playing());
    cap.start();
    for _ in 0..2 {
        cycle(&mut cap, &mut queue, &mut cache, &mut played);
    }
    assert_eq!(played, vec![1, 2, 3, 3, 3, 3, 7, 8]);
}
