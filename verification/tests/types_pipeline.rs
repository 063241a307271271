use the_bridge::pipeline::{next_power_of_two, AdaptiveBatcher, Disruptor, Sequencer, TradePayload, BATCH_MAX, BURST_WINDOW};
use the_bridge::types::{
    i32_to_track, track_to_i32, DOTStatus, InvalidCode, OrderSide, OrderStatus, OrderType, Track,
};

fn payload(id: u64, pair: &str) -> TradePayload {
    let mut bytes = [0u8; 14];
    bytes[..pair.len()].copy_from_slice(pair.as_bytes());
    TradePayload {
        trade_id: id,
        buy_order_id: id * 10,
        sell_order_id: id * 10 + 1,
        pair: bytes,
        pair_len: pair.len() as u8,
        price: 100 + id,
        quantity: 5,
        total: (100 + id) * 5,
        buy_user_id: 1,
        sell_user_id: 2,
        timestamp_ns: 1_700_000_000_000_000_000,
        seq: 0,
        track: 0,
    }
}

#[test]
fn order_codes_round_trip() {
    for t in [OrderType::Market, OrderType::Limit, OrderType::Stop, OrderType::StopLimit, OrderType::SWAP] {
        assert_eq!(OrderType::from_code(t.code()), Ok(t));
    }
    assert_eq!(OrderType::Limit.code(), 1);
    assert_eq!(OrderType::SWAP.code(), 4);
    assert_eq!(OrderSide::Sell.code(), 1);
    assert_eq!(OrderStatus::Expired.code(), 5);
    assert_eq!(DOTStatus::Disputed.code(), 3);
    assert_eq!(Track::Autonomous.code(), 1);
}

#[test]
fn invalid_codes_are_refused() {
    assert_eq!(OrderType::from_code(5), Err(InvalidCode { value: 5, max: 4 }));
    assert_eq!(OrderSide::from_code(2), Err(InvalidCode { value: 2, max: 1 }));
    assert_eq!(OrderStatus::from_code(9), Err(InvalidCode { value: 9, max: 5 }));
    assert_eq!(DOTStatus::from_code(4), Err(InvalidCode { value: 4, max: 3 }));
    assert_eq!(Track::from_code(200), Err(InvalidCode { value: 200, max: 1 }));
}

#[test]
fn track_defaults_and_columns() {
    assert_eq!(Track::default(), Track::Compliant);
    assert!(Track::Compliant.is_compliant());
    assert!(Track::Autonomous.is_autonomous());
    assert_eq!(track_to_i32(&Track::Autonomous), 1);
    assert_eq!(track_to_i32(&Track::Compliant), 0);
    assert_eq!(i32_to_track(1), Track::Autonomous);
    assert_eq!(i32_to_track(7), Track::Compliant);
    assert_eq!(i32_to_track(track_to_i32(&Track::Autonomous)), Track::Autonomous);
}

#[test]
fn power_of_two_rounding() {
    assert_eq!(next_power_of_two(0), 1);
    assert_eq!(next_power_of_two(1), 1);
    assert_eq!(next_power_of_two(3), 4);
    assert_eq!(next_power_of_two(1024), 1024);
    assert_eq!(next_power_of_two(1025), 2048);
}

#[test]
fn pair_text_and_unknown() {
    let p = payload(1, "BTC/USD");
    assert_eq!(p.pair_str(), "BTC/USD");
    let mut bad = payload(2, "X");
    bad.pair[0] = 0xff;
    assert_eq!(bad.pair_str(), "UNKNOWN");
}

#[test]
fn disruptor_push_claim_read() {
    let mut ring = Disruptor::new(3);
    assert_eq!(ring.producer_seq_val(), 1);
    assert_eq!(ring.consumed(), 1);
    assert_eq!(ring.pending(), 0);
    assert!(ring.claim_batch(10).is_none());

    for i in 1..=3u64 {
        ring.push_sp(&payload(i, "EUR/USD")).unwrap();
    }
    assert_eq!(ring.producer_seq_val(), 4);
    assert_eq!(ring.pending(), 3);

    assert_eq!(ring.claim_batch(2), Some((1, 2)));
    assert_eq!(ring.claim_batch(10), Some((3, 1)));
    assert!(ring.claim_batch(10).is_none());

    assert_eq!(ring.read_at(1).trade_id, 1);
    assert_eq!(ring.read_at(3).trade_id, 3);

    ring.set_commit_cursor(3);
    assert_eq!(ring.commit_cursor(), 3);
}

#[test]
fn disruptor_overwrites_a_lapped_slot() {
    let mut ring = Disruptor::new(2);
    for i in 1..=3u64 {
        ring.push_sp(&payload(i, "A")).unwrap();
    }
    // sequence 3 lands in the slot of sequence 1
    assert_eq!(ring.read_at(1).trade_id, 3);
    assert_eq!(ring.read_at(2).trade_id, 2);
}

#[test]
fn batcher_flushes_on_time_and_burst() {
    let mut b = AdaptiveBatcher::new();
    assert!(!b.is_burst());
    assert!(!b.should_flush_after(10, 5));
    assert!(b.should_flush_after(10, 100_000));
    // in a burst the batch flushes once it is large enough, whatever the time
    assert!(b.should_flush_after(BURST_WINDOW as usize, 0));
    assert!(BURST_WINDOW as usize >= BATCH_MAX);
    assert!(b.is_burst());
    assert!(!b.should_flush_after(1, 0));
    assert!(!b.is_burst());
}

#[test]
fn sequencer_advances_in_order() {
    let mut s = Sequencer::new();
    assert_eq!(s.cursor(), 1);
    s.wait_and_advance(1, 5);
    assert_eq!(s.cursor(), 5);
    s.wait_and_advance(5, 9);
    assert_eq!(s.cursor(), 9);
}

#[test]
fn pending_is_pushes_less_claims() {
    let mut ring = Disruptor::new(5);
    assert_eq!(ring.pending(), 0);
    for i in 0..7 {
        ring.push_sp(&payload(i, "BTC/USD")).unwrap();
    }
    assert_eq!(ring.claim_batch(3), Some((1, 3)));
    assert_eq!(ring.claim_batch(10), Some((4, 4)));
    assert_eq!(ring.claim_batch(10), None);
    ring.push_sp(&payload(8, "BTC/USD")).unwrap();
    assert_eq!(ring.pending(), 1);
    assert_eq!(ring.producer_seq_val(), 9);
    assert_eq!(ring.consumed(), 8);
    assert!(ring.consumed() <= ring.producer_seq_val());
}
