use rand::rngs::StdRng;
use rand::SeedableRng;
use rand_distr::{Distribution, Exp};
use real_traffic_stream::config::Config;
use real_traffic_stream::message::{IntakePoll, StreamMessage};
use real_traffic_stream::out_queue::{OutQueueControl, Tick};

#[test]
fn mean_interval_converges_to_configured_mean() {
    let mean: u64 = 50_000_000;
    let mut q: OutQueueControl<u32, u64> = OutQueueControl::new(Config::new(0, 0, mean));
    let mut rng = StdRng::seed_from_u64(7);
    let exp = Exp::new(1.0 / mean as f64).unwrap();
    let mut sample = || exp.sample(&mut rng).round() as u64;
    q.start_shaped(0, sample());
    let first = q.deadline();
    let ticks: u64 = 20_000;
    let mut emitted_at = Vec::new();
    for _ in 0..ticks {
        let due = q.deadline();
        // each tick is taken somewhat late; the schedule must not care
        let now = due + 1_000_000;
        match q.poll_next(now, sample()) {
            Tick::PollIntake => match q.on_intake(IntakePoll::Pending) {
                Some(StreamMessage::Cover) => emitted_at.push(due),
                _ => panic!("cover decision expected"),
            },
            _ => panic!("intake poll expected"),
        }
    }
    let span = emitted_at[emitted_at.len() - 1] - first;
    let empirical = span as f64 / (emitted_at.len() - 1) as f64;
    let ratio = empirical / mean as f64;
    assert!((0.95..1.05).contains(&ratio), "mean interval ratio {}", ratio);
}
