use std::num::NonZeroU32;
use std::time::Duration;

use governor::clock::FakeRelativeClock;
use governor::{Quota, RateLimiter};
use lol_lookup::gate::{gate_step, Bucket, GateAction, GatePhase};

#[test]
fn gate_steps_follow_long_then_short() {
    assert_eq!(gate_step(GatePhase::Long, false), (GatePhase::Long, GateAction::Wait(Bucket::Long)));
    assert_eq!(gate_step(GatePhase::Long, true), (GatePhase::Short, GateAction::Check(Bucket::Short)));
    assert_eq!(gate_step(GatePhase::Short, false), (GatePhase::Short, GateAction::Wait(Bucket::Short)));
    assert_eq!(gate_step(GatePhase::Short, true), (GatePhase::Open, GateAction::Send));
    assert_eq!(gate_step(GatePhase::Open, false), (GatePhase::Open, GateAction::Send));
}

/// Drives many callers through the bucket pair against two governor limiters on a
/// simulated clock, ticking every 10 ms, and checks the sends against both
/// quotas.
#[test]
fn concurrent_callers_never_exceed_either_quota() {
    let clock = FakeRelativeClock::default();
    let short = RateLimiter::direct_with_clock(Quota::per_second(NonZeroU32::new(20).unwrap()), &clock);
    let long = RateLimiter::direct_with_clock(Quota::per_minute(NonZeroU32::new(120).unwrap()), &clock);
    let callers: usize = 300;
    let mut phases = vec![GatePhase::Long; callers];
    let mut sends_at: Vec<u64> = Vec::new();
    let mut first_tick_sends = 0;
    for tick in 0u64..12_000 {
        let now_ms = tick * 10;
        for p in phases.iter_mut() {
            // Each waiting caller keeps asking its current bucket until it
            // must wait; a waiting caller asks again on a later tick.
            while *p != GatePhase::Open {
                let admitted = match *p {
                    GatePhase::Long => long.check().is_ok(),
                    _ => short.check().is_ok(),
                };
                let (next, action) = gate_step(*p, admitted);
                *p = next;
                match action {
                    GateAction::Send => {
                        sends_at.push(now_ms);
                        if tick == 0 {
                            first_tick_sends += 1;
                        }
                    }
                    GateAction::Wait(_) => break,
                    GateAction::Check(_) => {}
                }
            }
        }
        clock.advance(Duration::from_millis(10));
    }
    // Frozen clock: the short burst capacity bounds what goes out at once.
    assert_eq!(first_tick_sends, 20);
    // By time t (ms), at most burst + refill of either bucket went out.
    for (i, t) in sends_at.iter().enumerate() {
        let n = (i + 1) as u64;
        assert!(n <= 20 + t / 50, "short quota exceeded at {} ms", t);
        assert!(n <= 120 + t / 500, "long quota exceeded at {} ms", t);
    }
    assert!(sends_at.len() > 120);
}

/// A caller whose request then fails upstream has taken exactly one token of
/// each bucket: the next caller is gated as usual.
#[test]
fn failed_request_costs_one_token_of_each() {
    let clock = FakeRelativeClock::default();
    let short = RateLimiter::direct_with_clock(Quota::per_second(NonZeroU32::new(2).unwrap()), &clock);
    let long = RateLimiter::direct_with_clock(Quota::per_minute(NonZeroU32::new(120).unwrap()), &clock);
    let mut sent = 0;
    for _ in 0..3 {
        let mut p = GatePhase::Long;
        loop {
            let admitted = match p {
                GatePhase::Long => long.check().is_ok(),
                _ => short.check().is_ok(),
            };
            let (next, action) = gate_step(p, admitted);
            p = next;
            match action {
                GateAction::Send => {
                    sent += 1;
                    let failed = lol_lookup::client::account_v1_response(lol_lookup::client::Transport::Unreachable);
                    assert_eq!(failed.unwrap_err(), lol_lookup::error::RiotApiError::RiotApiError);
                    break;
                }
                GateAction::Wait(_) => break,
                GateAction::Check(_) => {}
            }
        }
    }
    assert_eq!(sent, 2);
}
