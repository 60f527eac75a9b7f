use vibeplayer::now_playing::NowPlaying;
use vibeplayer::song::Song;

fn track() -> Song {
    Song::new_ready("T", "A", "u", "t.mp3", 180_000)
}

#[test]
fn elapsed_starts_at_zero_and_follows_the_clock() {
    let np = NowPlaying::start(track(), 1_000);
    assert_eq!(np.started_at, 1_000);
    assert_eq!(np.paused_elapsed, 0);
    assert_eq!(np.paused_at, None);
    assert_eq!(np.elapsed(1_000), 0);
    assert_eq!(np.elapsed(1_250), 250);
    assert_eq!(np.elapsed(31_000), 30_000);
}

#[test]
fn elapsed_never_goes_below_zero() {
    let np = NowPlaying::start(track(), 1_000);
    assert_eq!(np.elapsed(999), 0);
    let odd = NowPlaying { song: track(), started_at: 10, paused_elapsed: 500, paused_at: None };
    assert_eq!(odd.elapsed(100), 0);
    assert_eq!(odd.elapsed(510), 0);
    assert_eq!(odd.elapsed(511), 1);
}

#[test]
fn paused_interval_does_not_count() {
    let mut np = NowPlaying::start(track(), 1_000);
    np.pause(31_000);
    let at_pause = np.elapsed(31_000);
    assert_eq!(at_pause, 30_000);
    assert!(np.is_paused());
    // five seconds of wall-clock time pass
    assert_eq!(np.elapsed(36_000), 30_000);
    np.resume(36_000);
    assert!(!np.is_paused());
    assert_eq!(np.paused_elapsed, 5_000);
    assert_eq!(np.elapsed(36_000), at_pause);
    assert_eq!(np.elapsed(36_100), 30_100);
}

#[test]
fn pauses_add_up() {
    let mut np = NowPlaying::start(track(), 0);
    np.pause(10_000);
    np.resume(12_000);
    np.pause(20_000);
    np.resume(25_000);
    assert_eq!(np.paused_elapsed, 7_000);
    assert_eq!(np.elapsed(30_000), 23_000);
}

#[test]
fn pause_and_resume_are_idempotent() {
    let mut np = NowPlaying::start(track(), 0);
    np.resume(5_000);
    assert_eq!(np, NowPlaying::start(track(), 0));
    np.pause(10_000);
    np.pause(11_000);
    assert_eq!(np.paused_at, Some(10_000));
    np.resume(12_000);
    np.resume(13_000);
    assert_eq!(np.paused_elapsed, 2_000);
    assert_eq!(np.paused_at, None);
}

#[test]
fn resume_saturates() {
    let mut np = NowPlaying {
        song: track(),
        started_at: 0,
        paused_elapsed: u64::MAX - 1,
        paused_at: Some(10),
    };
    np.resume(20);
    assert_eq!(np.paused_elapsed, u64::MAX);
    assert_eq!(np.elapsed(20), 0);
    let mut back = NowPlaying { song: track(), started_at: 0, paused_elapsed: 3, paused_at: Some(50) };
    back.resume(40);
    assert_eq!(back.paused_elapsed, 3);
}

#[test]
fn now_playing_clone_is_equal() {
    let mut np = NowPlaying::start(track(), 7);
    np.pause(9);
    assert_eq!(np.clone(), np);
}
