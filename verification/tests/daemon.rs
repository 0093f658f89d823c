//! End-to-end tests of the daemon's verified core: request construction,
//! the workload arena, the tick timers, the upload state machine, and the
//! supervisor's verdict.

use heapbeat::model::build_label_set;
use heapbeat::model::build_write_request;
use heapbeat::model::WriteRequest;
use heapbeat::supervisor::on_loop_exit;
use heapbeat::supervisor::LoopId;
use heapbeat::timer::Ticker;
use heapbeat::uploader::requests_for_snapshots;
use heapbeat::uploader::Phase;
use heapbeat::uploader::UploadAction;
use heapbeat::uploader::UploadEvent;
use heapbeat::uploader::Uploader;
use heapbeat::workload::WorkloadArena;

fn retained_bytes(arena: &WorkloadArena) -> usize {
    arena.blocks.iter().map(|b| b.len()).sum()
}

/// Drives one full successful tick cycle and returns the request it sent.
fn run_one_cycle(u: &mut Uploader, snapshot: Vec<u8>) -> WriteRequest {
    let a = u.on_event(UploadEvent::TickElapsed);
    assert!(matches!(a, UploadAction::CaptureSnapshot));
    let a = u.on_event(UploadEvent::Captured(snapshot));
    let request = match a {
        UploadAction::SendRequest(r) => r,
        _ => panic!("captured snapshot must be sent"),
    };
    let a = u.on_event(UploadEvent::SendAcknowledged);
    assert!(matches!(a, UploadAction::WaitForTick));
    request
}

#[test]
fn snapshot_passes_through_unmodified() {
    // A fake snapshot provider produced this non-empty blob.
    let snapshot = vec![0x1fu8, 0x8b, 0x08, 0x00, 0x42];
    let request = build_write_request(snapshot.clone(), 1234);
    assert_eq!(request.series.len(), 1);
    assert_eq!(request.series[0].samples.len(), 1);
    let sample = &request.series[0].samples[0];
    assert!(!sample.snapshot.is_empty());
    assert_eq!(sample.snapshot, snapshot);
}

#[test]
fn label_set_identifies_metric_and_process() {
    let pid: u64 = 4242;
    let ls = build_label_set(pid);
    assert_eq!(ls.labels.len(), 2);
    let metric: Vec<usize> = (0..ls.labels.len())
        .filter(|&i| ls.labels[i].name == "__name__")
        .collect();
    assert_eq!(metric.len(), 1);
    assert_eq!(ls.labels[metric[0]].value, "outstanding_allocations");
    let pids: Vec<usize> = (0..ls.labels.len())
        .filter(|&i| ls.labels[i].name == "pid")
        .collect();
    assert_eq!(pids.len(), 1);
    let pid_value = &ls.labels[pids[0]].value;
    assert!(pid_value.chars().all(|c| c.is_ascii_digit()));
    assert_eq!(pid_value.parse::<u64>().unwrap(), pid);
}

#[test]
fn bearer_header_wraps_token() {
    assert_eq!(
        heapbeat::model::bearer_header("abc123"),
        "Bearer abc123"
    );
    assert_eq!(heapbeat::model::bearer_header(""), "Bearer ");
}

#[test]
fn decimal_rendering_exact_values() {
    assert_eq!(heapbeat::decimal::u64_to_decimal(0), "0");
    assert_eq!(heapbeat::decimal::u64_to_decimal(7), "7");
    assert_eq!(heapbeat::decimal::u64_to_decimal(10), "10");
    assert_eq!(heapbeat::decimal::u64_to_decimal(42), "42");
    assert_eq!(heapbeat::decimal::u64_to_decimal(1234567890), "1234567890");
    assert_eq!(
        heapbeat::decimal::u64_to_decimal(u64::MAX),
        "18446744073709551615"
    );
}

#[test]
fn single_tick_single_series_never_batched() {
    let one = requests_for_snapshots(vec![vec![1, 2, 3]], 7);
    assert_eq!(one.len(), 1);
    assert_eq!(one[0].series.len(), 1);
    assert_eq!(one[0].series[0].samples.len(), 1);

    // Two consecutive ticks yield two separate requests, never one merged.
    let two = requests_for_snapshots(vec![vec![1, 2, 3], vec![4, 5]], 7);
    assert_eq!(two.len(), 2);
    for request in &two {
        assert_eq!(request.series.len(), 1);
        assert_eq!(request.series[0].samples.len(), 1);
    }
    assert_eq!(two[0].series[0].samples[0].snapshot, vec![1, 2, 3]);
    assert_eq!(two[1].series[0].samples[0].snapshot, vec![4, 5]);
}

#[test]
fn arena_retains_n_times_s_after_n_ticks() {
    let size: usize = 1024;
    let n: usize = 5;
    let mut arena = WorkloadArena::new(size);
    assert_eq!(retained_bytes(&arena), 0);
    let mut last = 0;
    for _ in 0..n {
        arena.tick();
        let now = retained_bytes(&arena);
        // Retained memory never decreases and grows by exactly `size`.
        assert!(now >= last);
        assert_eq!(now, last + size);
        last = now;
    }
    assert_eq!(arena.blocks.len(), n);
    assert!(retained_bytes(&arena) >= n * size);
}

#[test]
fn arena_zero_size_edge() {
    let mut arena = WorkloadArena::new(0);
    arena.tick();
    arena.tick();
    assert_eq!(arena.blocks.len(), 2);
    assert_eq!(retained_bytes(&arena), 0);
}

#[test]
fn send_failure_is_fatal_and_supervisor_halts() {
    let mut u = Uploader::new(9);
    assert!(matches!(
        u.on_event(UploadEvent::TickElapsed),
        UploadAction::CaptureSnapshot
    ));
    assert!(matches!(
        u.on_event(UploadEvent::Captured(vec![1])),
        UploadAction::SendRequest(_)
    ));
    // The simulated channel rejects the send: the loop aborts, no retry.
    let a = u.on_event(UploadEvent::SendFailed);
    assert!(matches!(a, UploadAction::Fatal));
    assert_eq!(u.phase, Phase::Halted);
    // A halted loop stays halted whatever happens next.
    assert!(matches!(
        u.on_event(UploadEvent::TickElapsed),
        UploadAction::Fatal
    ));
    // The supervisor then halts the process, naming the loop that exited.
    let verdict = on_loop_exit(LoopId::CaptureUpload);
    assert!(verdict.halt);
    assert_eq!(verdict.report, "write profile loop unexpectedly quit");
}

#[test]
fn capture_failure_is_fatal() {
    let mut u = Uploader::new(9);
    assert!(matches!(
        u.on_event(UploadEvent::TickElapsed),
        UploadAction::CaptureSnapshot
    ));
    let a = u.on_event(UploadEvent::CaptureFailed);
    assert!(matches!(a, UploadAction::Fatal));
    assert_eq!(u.phase, Phase::Halted);
}

#[test]
fn supervisor_reports_each_loop() {
    let generator = on_loop_exit(LoopId::WorkloadGenerator);
    assert!(generator.halt);
    assert_eq!(generator.report, "allocator loop unexpectedly quit");
    let uploader = on_loop_exit(LoopId::CaptureUpload);
    assert!(uploader.halt);
    assert_ne!(generator.report, uploader.report);
}

#[test]
fn loops_are_independent() {
    // Delaying the workload generator's timer does not move the
    // capture-and-upload loop's deadlines, and vice versa.
    let mut gen_timer = Ticker::new(3);
    let mut upload_timer = Ticker::new(10);
    // The generator is polled late; the upload timer still fires exactly on
    // its own schedule.
    assert!(gen_timer.poll(7));
    assert_eq!(upload_timer.next_deadline, 0);
    assert!(upload_timer.poll(0));
    assert_eq!(upload_timer.next_deadline, 10);
    assert!(!upload_timer.poll(9));
    assert!(upload_timer.poll(10));
    assert_eq!(upload_timer.next_deadline, 20);
    assert_eq!(gen_timer.next_deadline, 3);

    // Interleaving arena ticks between uploader events changes nothing in
    // the uploader's behaviour, and the uploader changes nothing in the
    // arena.
    let mut arena = WorkloadArena::new(64);
    let mut interleaved = Uploader::new(5);
    let mut alone = Uploader::new(5);
    for round in 0..3u8 {
        arena.tick();
        let r1 = run_one_cycle(&mut interleaved, vec![round; 8]);
        arena.tick();
        let r2 = run_one_cycle(&mut alone, vec![round; 8]);
        assert_eq!(
            r1.series[0].samples[0].snapshot,
            r2.series[0].samples[0].snapshot
        );
    }
    assert_eq!(interleaved.sent, alone.sent);
    assert_eq!(interleaved.phase, alone.phase);
    assert_eq!(arena.blocks.len(), 6);
    assert_eq!(retained_bytes(&arena), 6 * 64);
}

#[test]
fn three_ticks_three_requests_with_growing_snapshots() {
    // Period of 10 time units; the mock channel records every request.
    let period: u64 = 10;
    let mut timer = Ticker::new(period);
    let mut uploader = Uploader::new(77);
    let mut channel: Vec<WriteRequest> = Vec::new();
    // The fake provider's snapshots only grow, as retained allocations do.
    let snapshots = [vec![1u8; 100], vec![2u8; 200], vec![3u8; 300]];
    let mut next = 0;
    for now in 0..=(2 * period) {
        if timer.poll(now) {
            let a = uploader.on_event(UploadEvent::TickElapsed);
            assert!(matches!(a, UploadAction::CaptureSnapshot));
            let a = uploader.on_event(UploadEvent::Captured(snapshots[next].clone()));
            next += 1;
            match a {
                UploadAction::SendRequest(r) => channel.push(r),
                _ => panic!("captured snapshot must be sent"),
            }
            let a = uploader.on_event(UploadEvent::SendAcknowledged);
            assert!(matches!(a, UploadAction::WaitForTick));
        }
    }
    // After exactly 3 ticks, exactly 3 requests were observed.
    assert_eq!(channel.len(), 3);
    assert_eq!(uploader.sent, 3);
    let mut last_size = 0;
    for request in &channel {
        assert_eq!(request.series.len(), 1);
        assert_eq!(request.series[0].samples.len(), 1);
        let size = request.series[0].samples[0].snapshot.len();
        // Snapshot byte sizes never decrease across ticks.
        assert!(size >= last_size);
        last_size = size;
    }
}
