use restock::country::Country;
use restock::country::FPSCountry;
use restock::model::ProductResult;
use restock::model::Variant;
use restock::monitor::purchasable;
use restock::monitor::snapshot;
use restock::monitor::Monitor;
use restock::monitor::MonitorAction;
use restock::monitor::MonitorEvent;
use restock::monitor::MonitorPhase;
use restock::monitor::Poll;
use restock::monitor::Snapshot;
use restock::monitor::CHANNEL_CAPACITY;
use restock::monitor::POLL_INTERVAL_MS;
use restock::Error;
use tokio::sync::broadcast;
use tokio::sync::broadcast::error::TryRecvError;

fn storefront(base_url: &str) -> Country {
    Country {
        code: String::from("US"),
        base_url: String::from(base_url),
        currency: String::from("USD"),
        language: String::from("en-US"),
        fps: FPSCountry { id: 216, name: String::from("United States") },
    }
}

fn variant(id: &str, merchant_id: i64, quantity: i64) -> Variant {
    Variant {
        id: String::from(id),
        merchant_id,
        formatted_price: String::from("$ 1"),
        quantity,
        size: String::from("M"),
    }
}

fn entry(id: i64, variants: Vec<Variant>) -> ProductResult {
    ProductResult { id, variants, ..ProductResult::default() }
}

fn monitor(sender: broadcast::Sender<Snapshot>) -> Monitor {
    Monitor::new(String::from("P123"), &storefront("https://example.com"), sender).unwrap()
}

fn poll(monitor: &mut Monitor, fetched: Result<ProductResult, Error>) -> Poll {
    if monitor.current_phase() == MonitorPhase::Idle {
        assert_eq!(monitor.start(), Some(MonitorAction::Fetch));
    } else {
        assert_eq!(monitor.handle(MonitorEvent::Woke), Some(MonitorAction::Fetch));
    }
    match monitor.handle(MonitorEvent::Fetched(fetched)) {
        Some(MonitorAction::Sleep { millis, report }) => {
            assert_eq!(millis, POLL_INTERVAL_MS);
            report
        }
        other => panic!("no rest after a fetch: {:?}", other),
    }
}

#[test]
fn constants_of_the_round() {
    assert_eq!(POLL_INTERVAL_MS, 1000);
    assert_eq!(CHANNEL_CAPACITY, 32);
}

#[test]
fn purchasable_keeps_what_is_in_stock_in_order() {
    let variants = vec![
        variant("a", 1, 0),
        variant("b", 1, 2),
        variant("c", 2, -1),
        variant("d", 2, 1),
        variant("b", 1, 2),
        variant("e", 3, 0),
    ];
    assert_eq!(
        purchasable(&variants),
        vec![variant("b", 1, 2), variant("d", 2, 1), variant("b", 1, 2)]
    );
}

#[test]
fn purchasable_of_nothing_is_nothing() {
    assert_eq!(purchasable(&Vec::new()), Vec::new());
    assert_eq!(purchasable(&vec![variant("a", 1, 0), variant("b", 1, i64::MIN)]), Vec::new());
}

#[test]
fn purchasable_keeps_everything_in_stock() {
    let variants = vec![variant("a", 1, 1), variant("b", 1, i64::MAX)];
    assert_eq!(purchasable(&variants), variants);
}

#[test]
fn snapshot_holds_the_product_and_what_is_in_stock() {
    let product = entry(42, vec![variant("v1", 7, 3), variant("v2", 7, 0)]);
    assert_eq!(snapshot(&product), Some((42, vec![variant("v1", 7, 3)])));
}

#[test]
fn snapshot_of_a_sold_out_product_is_none() {
    assert_eq!(snapshot(&entry(42, vec![variant("v2", 7, 0)])), None);
    assert_eq!(snapshot(&entry(42, Vec::new())), None);
}

#[test]
fn monitor_of_a_storefront_without_url_is_refused() {
    let (sender, _receiver) = broadcast::channel::<Snapshot>(CHANNEL_CAPACITY);
    let refused = Monitor::new(String::from("P123"), &storefront("nowhere"), sender);
    assert_eq!(
        refused.unwrap_err(),
        Error::ParseError(url::ParseError::RelativeUrlWithoutBase)
    );
}

#[test]
fn catalog_url_of_the_monitor() {
    let (sender, _receiver) = broadcast::channel::<Snapshot>(CHANNEL_CAPACITY);
    let monitor = monitor(sender);
    assert_eq!(
        monitor.fetch_product(1_700_000_000_123).unwrap(),
        "https://example.com/api/products/P123?ts=1700000000123"
    );
}

#[test]
fn round_goes_from_fetch_to_rest_and_back() {
    let (sender, _receiver) = broadcast::channel::<Snapshot>(CHANNEL_CAPACITY);
    let mut monitor = monitor(sender);
    assert_eq!(monitor.current_phase(), MonitorPhase::Idle);
    assert_eq!(monitor.handle(MonitorEvent::Woke), None);
    assert_eq!(monitor.current_phase(), MonitorPhase::Idle);
    assert_eq!(monitor.start(), Some(MonitorAction::Fetch));
    assert_eq!(monitor.current_phase(), MonitorPhase::Fetching);
    assert_eq!(monitor.start(), None);
    assert_eq!(monitor.handle(MonitorEvent::Woke), None);
    assert_eq!(monitor.current_phase(), MonitorPhase::Fetching);
    let rest = monitor.handle(MonitorEvent::Fetched(Ok(entry(1, Vec::new()))));
    assert_eq!(rest, Some(MonitorAction::Sleep { millis: 1000, report: Poll::NoVariants }));
    assert_eq!(monitor.current_phase(), MonitorPhase::Sleeping);
    assert_eq!(monitor.start(), None);
    assert_eq!(monitor.handle(MonitorEvent::Woke), Some(MonitorAction::Fetch));
    assert_eq!(monitor.current_phase(), MonitorPhase::Fetching);
}

#[test]
fn fetch_that_nobody_asked_for_publishes_nothing() {
    let (sender, mut receiver) = broadcast::channel::<Snapshot>(CHANNEL_CAPACITY);
    let mut monitor = monitor(sender);
    let stray = MonitorEvent::Fetched(Ok(entry(1, vec![variant("a", 1, 1)])));
    assert_eq!(monitor.handle(stray), None);
    assert_eq!(receiver.try_recv(), Err(TryRecvError::Empty));
    poll(&mut monitor, Ok(entry(2, Vec::new())));
    let stray = MonitorEvent::Fetched(Ok(entry(3, vec![variant("a", 1, 1)])));
    assert_eq!(monitor.handle(stray), None);
    assert_eq!(monitor.current_phase(), MonitorPhase::Sleeping);
    assert_eq!(receiver.try_recv(), Err(TryRecvError::Empty));
}

#[test]
fn published_snapshot_holds_only_what_is_in_stock() {
    let (sender, mut receiver) = broadcast::channel::<Snapshot>(CHANNEL_CAPACITY);
    let mut monitor = monitor(sender);
    let report = poll(&mut monitor, Ok(entry(42, vec![variant("v1", 7, 3), variant("v2", 7, 0)])));
    assert_eq!(
        report,
        Poll::Published { snapshot: (42, vec![variant("v1", 7, 3)]), receivers: Some(1) }
    );
    assert_eq!(receiver.try_recv(), Ok((42, vec![variant("v1", 7, 3)])));
    assert_eq!(receiver.try_recv(), Err(TryRecvError::Empty));
}

#[test]
fn sold_out_product_publishes_nothing() {
    let (sender, mut receiver) = broadcast::channel::<Snapshot>(CHANNEL_CAPACITY);
    let mut monitor = monitor(sender);
    let report = poll(&mut monitor, Ok(entry(42, vec![variant("v2", 7, 0)])));
    assert_eq!(report, Poll::NoVariants);
    assert_eq!(receiver.try_recv(), Err(TryRecvError::Empty));
}

#[test]
fn failed_fetch_publishes_nothing_and_the_round_goes_on() {
    let (sender, mut receiver) = broadcast::channel::<Snapshot>(CHANNEL_CAPACITY);
    let mut monitor = monitor(sender);
    let report = poll(&mut monitor, Err(Error::Reqwest(String::from("status 503"))));
    assert_eq!(report, Poll::Failed(Error::Reqwest(String::from("status 503"))));
    assert_eq!(receiver.try_recv(), Err(TryRecvError::Empty));
    let report = poll(&mut monitor, Ok(entry(42, vec![variant("v1", 7, 3)])));
    assert!(matches!(report, Poll::Published { .. }));
    assert_eq!(receiver.try_recv(), Ok((42, vec![variant("v1", 7, 3)])));
}

#[test]
fn publish_without_subscribers_is_no_failure() {
    let (sender, receiver) = broadcast::channel::<Snapshot>(CHANNEL_CAPACITY);
    drop(receiver);
    let mut monitor = monitor(sender.clone());
    let report = poll(&mut monitor, Ok(entry(42, vec![variant("v1", 7, 3)])));
    assert_eq!(
        report,
        Poll::Published { snapshot: (42, vec![variant("v1", 7, 3)]), receivers: None }
    );
    let mut late = sender.subscribe();
    assert_eq!(late.try_recv(), Err(TryRecvError::Empty));
    let report = poll(&mut monitor, Ok(entry(43, vec![variant("v1", 7, 3)])));
    assert_eq!(
        report,
        Poll::Published { snapshot: (43, vec![variant("v1", 7, 3)]), receivers: Some(1) }
    );
    assert_eq!(late.try_recv(), Ok((43, vec![variant("v1", 7, 3)])));
}

#[test]
fn publish_reaches_who_subscribed_before_it() {
    let (sender, mut first) = broadcast::channel::<Snapshot>(CHANNEL_CAPACITY);
    let mut monitor = monitor(sender.clone());
    let report = poll(&mut monitor, Ok(entry(1, vec![variant("a", 1, 1)])));
    assert!(matches!(report, Poll::Published { receivers: Some(1), .. }));
    let mut second = sender.subscribe();
    assert_eq!(first.try_recv(), Ok((1, vec![variant("a", 1, 1)])));
    assert_eq!(second.try_recv(), Err(TryRecvError::Empty));
    let report = poll(&mut monitor, Ok(entry(2, vec![variant("b", 1, 1)])));
    assert!(matches!(report, Poll::Published { receivers: Some(2), .. }));
    assert_eq!(first.try_recv(), Ok((2, vec![variant("b", 1, 1)])));
    assert_eq!(second.try_recv(), Ok((2, vec![variant("b", 1, 1)])));
    assert_eq!(first.try_recv(), Err(TryRecvError::Empty));
    assert_eq!(second.try_recv(), Err(TryRecvError::Empty));
}

#[test]
fn subscribers_see_publishes_in_order() {
    let (sender, mut receiver) = broadcast::channel::<Snapshot>(CHANNEL_CAPACITY);
    let mut monitor = monitor(sender);
    for id in 0..CHANNEL_CAPACITY as i64 {
        poll(&mut monitor, Ok(entry(id, vec![variant("a", 1, 1)])));
    }
    for id in 0..CHANNEL_CAPACITY as i64 {
        assert_eq!(receiver.try_recv(), Ok((id, vec![variant("a", 1, 1)])));
    }
    assert_eq!(receiver.try_recv(), Err(TryRecvError::Empty));
}

#[test]
fn subscriber_that_falls_behind_is_told_what_it_missed() {
    let (sender, mut slow) = broadcast::channel::<Snapshot>(CHANNEL_CAPACITY);
    let mut quick = sender.subscribe();
    let mut monitor = monitor(sender);
    for id in 0..40 {
        let report = poll(&mut monitor, Ok(entry(id, vec![variant("a", 1, 1)])));
        assert!(matches!(report, Poll::Published { receivers: Some(2), .. }));
        assert_eq!(quick.try_recv(), Ok((id, vec![variant("a", 1, 1)])));
    }
    assert_eq!(slow.try_recv(), Err(TryRecvError::Lagged(8)));
    for id in 8..40 {
        assert_eq!(slow.try_recv(), Ok((id, vec![variant("a", 1, 1)])));
    }
    assert_eq!(slow.try_recv(), Err(TryRecvError::Empty));
    poll(&mut monitor, Ok(entry(40, vec![variant("a", 1, 1)])));
    assert_eq!(slow.try_recv(), Ok((40, vec![variant("a", 1, 1)])));
    assert_eq!(quick.try_recv(), Ok((40, vec![variant("a", 1, 1)])));
}

#[test]
fn subscriber_at_the_capacity_misses_nothing() {
    let (sender, mut slow) = broadcast::channel::<Snapshot>(CHANNEL_CAPACITY);
    let mut monitor = monitor(sender);
    for id in 0..32 {
        poll(&mut monitor, Ok(entry(id, vec![variant("a", 1, 1)])));
    }
    assert_eq!(slow.try_recv(), Ok((0, vec![variant("a", 1, 1)])));
    poll(&mut monitor, Ok(entry(32, vec![variant("a", 1, 1)])));
    poll(&mut monitor, Ok(entry(33, vec![variant("a", 1, 1)])));
    assert_eq!(slow.try_recv(), Err(TryRecvError::Lagged(1)));
    assert_eq!(slow.try_recv(), Ok((2, vec![variant("a", 1, 1)])));
}
