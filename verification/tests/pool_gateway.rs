use the_bridge::kyc::sanctions_verdict;
use the_bridge::gateway::{tier_limit_of, AuditEntry, AuditLog, RateLimiter};
use the_bridge::pool::ObjectPool;

#[derive(Default, Debug, PartialEq)]
struct TestObject {
    value: u64,
    label: String,
}

#[test]
fn test_acquire_release() {
    let mut pool = ObjectPool::<TestObject>::new(100);
    let mut obj = pool.acquire();
    obj.value = 42;
    obj.label = "hello".to_string();
    assert_eq!(obj.value, 42);
    assert_eq!(obj.label, "hello");
    pool.release(obj);
    assert_eq!(pool.allocation_count(), 0);
}

#[test]
fn test_pool_reuses_objects() {
    let mut pool = ObjectPool::<TestObject>::new(100);
    let mut first = pool.acquire();
    let mut second = pool.acquire();
    let mut third = pool.acquire();
    first.value = 1;
    second.value = 2;
    third.value = 3;
    assert_eq!(pool.allocation_count(), 0, "no new allocations — all from prealloc");
    pool.release(first);
    pool.release(second);
    pool.release(third);
    let mut values = Vec::new();
    for _ in 0..10 {
        let obj = pool.acquire();
        values.push(obj.value);
    }
    assert_eq!(pool.allocation_count(), 0, "still no new allocations after release");
    assert!(values.iter().any(|&v| v == 1), "the first object was reused after release");
    assert_eq!(values, vec![0, 0, 0, 0, 0, 0, 0, 1, 2, 3]);
}

#[test]
fn test_allocation_count_increases_when_pool_exhausted() {
    let mut pool = ObjectPool::<TestObject>::new(10);
    let mut objects = Vec::new();
    for _ in 0..15 {
        objects.push(pool.acquire());
    }
    assert_eq!(pool.allocation_count(), 14);
}

#[test]
fn test_pool_max_size_respected() {
    let mut pool = ObjectPool::<TestObject>::new(100);
    let mut objects = Vec::new();
    for _ in 0..200 {
        objects.push(pool.acquire());
    }
    let overflow_count = pool.allocation_count();
    for obj in objects {
        pool.release(obj);
    }
    assert!(pool.available() <= 100, "pool should not exceed max_size");
    assert_eq!(pool.available(), 100);
    assert!(overflow_count > 0, "should have overflow allocations");
    assert_eq!(overflow_count, 190);
}

#[test]
fn test_deref_mut_modification() {
    let mut pool = ObjectPool::<TestObject>::new(10);
    let mut obj = pool.acquire();
    *obj = TestObject { value: 99, label: "modified".to_string() };
    assert_eq!(obj.value, 99);
}

#[test]
fn prealloc_is_a_tenth_capped() {
    let pool = ObjectPool::<TestObject>::new(0);
    assert_eq!(pool.available(), 0);
    let pool = ObjectPool::<TestObject>::new(9);
    assert_eq!(pool.available(), 0);
    let pool = ObjectPool::<TestObject>::new(250_000);
    assert_eq!(pool.available(), 10_000);
}

#[test]
fn tier_limits() {
    assert_eq!(tier_limit_of("public"), 200);
    assert_eq!(tier_limit_of("auth"), 20);
    assert_eq!(tier_limit_of("trading"), 2000);
    assert_eq!(tier_limit_of("admin"), 100);
    assert_eq!(tier_limit_of("webhook"), 500);
    assert_eq!(tier_limit_of("default"), 100);
    assert_eq!(tier_limit_of("other"), 100);
}

#[test]
fn rate_limit_window_per_tier_and_address() {
    let mut rl = RateLimiter::new();
    for _ in 0..20 {
        assert!(rl.check_at("10.0.0.1", "auth", 5));
    }
    assert!(!rl.check_at("10.0.0.1", "auth", 999_999), "the 21st auth request in the window is refused");
    assert!(rl.check_at("10.0.0.2", "auth", 999_999), "another address has its own window");
    assert!(rl.check_at("10.0.0.1", "public", 999_999), "another tier has its own window");
    assert!(rl.check_at("10.0.0.1", "auth", 1_000_005), "a second later the window starts again");
    assert!(rl.check("127.0.0.1", "trading"));
}

fn entry(n: i64) -> AuditEntry {
    AuditEntry {
        timestamp: n,
        tenant_id: None,
        action: "POST".to_string(),
        resource: format!("/api/v1/orders/{}", n),
        ip: "10.0.0.1".to_string(),
        status: 200,
    }
}

#[test]
fn audit_log_keeps_the_latest() {
    let mut log = AuditLog::new(3);
    for n in 1..=5 {
        log.log(entry(n));
    }
    let all: Vec<i64> = log.recent(10).iter().map(|e| e.timestamp).collect();
    assert_eq!(all, vec![3, 4, 5]);
    let last_two: Vec<i64> = log.recent(2).iter().map(|e| e.timestamp).collect();
    assert_eq!(last_two, vec![4, 5]);
    assert!(log.recent(0).is_empty());
    assert_eq!(log.recent(1)[0].resource, "/api/v1/orders/5");
}

#[derive(Default, Debug)]
struct OrderStandIn {
    price: f64,
    quantity: f64,
}

#[test]
fn test_order_pool_integration() {
    let mut pool = ObjectPool::<OrderStandIn>::new(1000);
    let mut order = pool.acquire();
    order.price = 100.50;
    order.quantity = 10.0;
    pool.release(order);
    assert!(pool.allocation_count() <= 100);
}

#[test]
fn orchestrator_defaults() {
    let c = the_bridge::orchestrator::OrchestratorConfig::default();
    assert_eq!(c.mempool_interval_ms, 100);
    assert_eq!(c.fba_interval_ms, 100);
    assert_eq!(c.threshold_crypto_params, (3, 5));
}

#[test]
fn sanctions_verdict_clears_under_sixty_and_caps_at_a_hundred() {
    assert_eq!(sanctions_verdict(0), (true, 0));
    assert_eq!(sanctions_verdict(59), (true, 59));
    assert_eq!(sanctions_verdict(60), (false, 60));
    assert_eq!(sanctions_verdict(100), (false, 100));
    assert_eq!(sanctions_verdict(255), (false, 100));
}
