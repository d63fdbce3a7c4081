use restock::country::Country;
use restock::country::FPSCountry;
use restock::model::Address;
use restock::model::Card;
use restock::model::Profile;
use restock::model::ProductResult;
use restock::model::TaskConfig;
use restock::model::Variant;
use restock::monitor::MonitorAction;
use restock::monitor::MonitorEvent;
use restock::monitor::MonitorPhase;
use restock::monitor::Poll;
use restock::supervisor::assemble;
use restock::supervisor::plan;
use restock::supervisor::Plan;
use restock::task::Phase;
use restock::Error;
use tokio::sync::broadcast::error::TryRecvError;

fn storefront_of(code: &str) -> Country {
    Country {
        code: String::from(code),
        base_url: format!("https://{}.example.com", code),
        currency: String::from("EUR"),
        language: String::from("en"),
        fps: FPSCountry { id: 1, name: String::from(code) },
    }
}

fn address(code: &str) -> Address {
    Address {
        first_name: String::from("Ada"),
        last_name: String::from("Byron"),
        address1: String::from("1 Main St"),
        address2: None,
        zip: String::from("00100"),
        city: String::from("Town"),
        country: storefront_of(code),
        state: None,
    }
}

fn buyer_in(delivery: &str, billing: &str) -> Profile {
    Profile {
        email: String::from("a@b.com"),
        phone: String::from("555"),
        card: Card {
            number: String::from("4111"),
            expiry_month: 1,
            expiry_year: 2030,
            cvv: String::from("123"),
        },
        delivery: address(delivery),
        billing: address(billing),
    }
}

fn task_for(deliveries: &[&str]) -> TaskConfig {
    TaskConfig {
        product: String::from("P123"),
        profiles: deliveries.iter().map(|code| buyer_in(code, "ZZ")).collect(),
    }
}

#[test]
fn task_without_profiles_needs_nothing() {
    assert_eq!(plan(&task_for(&[])), Plan { monitors: vec![], workers: vec![] });
}

#[test]
fn one_profile_gets_its_monitor() {
    assert_eq!(plan(&task_for(&["US"])), Plan { monitors: vec![0], workers: vec![0] });
}

#[test]
fn profiles_of_one_storefront_share_one_monitor() {
    assert_eq!(
        plan(&task_for(&["US", "US", "US"])),
        Plan { monitors: vec![0], workers: vec![0, 0, 0] }
    );
}

#[test]
fn each_storefront_gets_one_monitor_in_order_of_appearance() {
    assert_eq!(
        plan(&task_for(&["US", "GB", "US", "IT", "GB"])),
        Plan { monitors: vec![0, 1, 3], workers: vec![0, 1, 0, 2, 1] }
    );
}

#[test]
fn storefront_is_that_of_the_delivery_address() {
    let mixed = TaskConfig {
        product: String::from("P123"),
        profiles: vec![buyer_in("US", "GB"), buyer_in("GB", "US"), buyer_in("US", "US")],
    };
    assert_eq!(plan(&mixed), Plan { monitors: vec![0, 1], workers: vec![0, 1, 0] });
}

#[test]
fn storefronts_are_told_apart_by_code_alone() {
    let mut other = buyer_in("US", "US");
    other.delivery.country.base_url = String::from("https://elsewhere.example.com");
    other.delivery.country.currency = String::from("USD");
    let mut lower = buyer_in("us", "US");
    lower.delivery.country.base_url = String::from("https://US.example.com");
    let config = TaskConfig {
        product: String::from("P123"),
        profiles: vec![buyer_in("US", "US"), other, lower],
    };
    assert_eq!(plan(&config), Plan { monitors: vec![0, 2], workers: vec![0, 0, 1] });
}

#[test]
fn every_worker_listens_to_its_own_storefront() {
    let codes = ["FR", "DE", "FR", "IT", "IT", "DE", "ES", "FR"];
    let config = task_for(&codes);
    let planned = plan(&config);
    assert_eq!(planned.workers.len(), codes.len());
    for (profile, monitor) in planned.workers.iter().enumerate() {
        assert_eq!(codes[planned.monitors[*monitor]], codes[profile]);
    }
    for (position, first) in planned.monitors.iter().enumerate() {
        for earlier in &planned.monitors[..position] {
            assert_ne!(codes[*earlier], codes[*first]);
        }
    }
}

fn in_stock(id: &str) -> Variant {
    Variant {
        id: String::from(id),
        merchant_id: 7,
        formatted_price: String::from("EUR 1"),
        quantity: 1,
        size: String::from("M"),
    }
}

#[test]
fn assembly_holds_a_monitor_for_each_storefront_and_a_worker_for_each_profile() {
    let config = task_for(&["US", "GB", "US"]);
    let assembly = assemble(&config).unwrap();
    assert_eq!(assembly.plan, plan(&config));
    assert_eq!(assembly.monitors.len(), 2);
    assert_eq!(assembly.workers.len(), 3);
    for monitor in &assembly.monitors {
        assert_eq!(monitor.current_phase(), MonitorPhase::Idle);
    }
    for worker in &assembly.workers {
        assert_eq!(worker.phase(), Phase::Uninitialized);
    }
    assert_eq!(
        assembly.monitors[0].fetch_product(9).unwrap(),
        "https://us.example.com/api/products/P123?ts=9"
    );
    assert_eq!(
        assembly.monitors[1].fetch_product(9).unwrap(),
        "https://gb.example.com/api/products/P123?ts=9"
    );
    assert_eq!(
        assembly.workers[1].create_session().unwrap(),
        "https://gb.example.com/api/users/me"
    );
    assert_eq!(
        assembly.workers[2].create_session().unwrap(),
        "https://us.example.com/api/users/me"
    );
}

#[test]
fn workers_hear_the_monitor_of_their_own_storefront_only() {
    let config = task_for(&["US", "GB", "US"]);
    let mut assembly = assemble(&config).unwrap();
    let fetched = ProductResult { id: 42, variants: vec![in_stock("v1")], ..ProductResult::default() };
    assert_eq!(assembly.monitors[0].start(), Some(MonitorAction::Fetch));
    let rest = assembly.monitors[0].handle(MonitorEvent::Fetched(Ok(fetched)));
    assert_eq!(
        rest,
        Some(MonitorAction::Sleep {
            millis: 1000,
            report: Poll::Published { snapshot: (42, vec![in_stock("v1")]), receivers: Some(2) },
        })
    );
    assert_eq!(assembly.workers[0].receiver().try_recv(), Ok((42, vec![in_stock("v1")])));
    assert_eq!(assembly.workers[1].receiver().try_recv(), Err(TryRecvError::Empty));
    assert_eq!(assembly.workers[2].receiver().try_recv(), Ok((42, vec![in_stock("v1")])));

    let fetched = ProductResult { id: 43, variants: vec![in_stock("w1")], ..ProductResult::default() };
    assert_eq!(assembly.monitors[1].start(), Some(MonitorAction::Fetch));
    let rest = assembly.monitors[1].handle(MonitorEvent::Fetched(Ok(fetched)));
    assert!(matches!(
        rest,
        Some(MonitorAction::Sleep { report: Poll::Published { receivers: Some(1), .. }, .. })
    ));
    assert_eq!(assembly.workers[0].receiver().try_recv(), Err(TryRecvError::Empty));
    assert_eq!(assembly.workers[1].receiver().try_recv(), Ok((43, vec![in_stock("w1")])));
    assert_eq!(assembly.workers[2].receiver().try_recv(), Err(TryRecvError::Empty));
}

#[test]
fn assembly_of_a_task_without_profiles_is_empty() {
    let assembly = assemble(&task_for(&[])).unwrap();
    assert_eq!(assembly.plan, Plan { monitors: vec![], workers: vec![] });
    assert!(assembly.monitors.is_empty());
    assert!(assembly.workers.is_empty());
}

#[test]
fn assembly_fails_on_the_first_storefront_without_url() {
    let mut config = task_for(&["US", "GB", "IT", "GB"]);
    config.profiles[2].delivery.country.base_url = String::from("https://");
    config.profiles[3].delivery.country.base_url = String::from("nowhere");
    assert_eq!(
        assemble(&config).unwrap_err(),
        Error::ParseError(url::ParseError::EmptyHost)
    );
    config.profiles[2].delivery.country.base_url = String::from("https://it.example.com");
    assert_eq!(
        assemble(&config).unwrap_err(),
        Error::ParseError(url::ParseError::RelativeUrlWithoutBase)
    );
    config.profiles[3].delivery.country.base_url = String::from("https://gb.example.com");
    assert!(assemble(&config).is_ok());
}

#[test]
fn billing_storefront_needs_no_url() {
    let mut config = task_for(&["US"]);
    config.profiles[0].billing.country.base_url = String::from("nowhere");
    assert!(assemble(&config).is_ok());
}

#[test]
fn assembled_worker_may_fall_thirty_two_snapshots_behind() {
    let config = task_for(&["US"]);
    let mut assembly = assemble(&config).unwrap();
    assert_eq!(assembly.monitors[0].start(), Some(MonitorAction::Fetch));
    for id in 0..32 {
        let fetched =
            ProductResult { id, variants: vec![in_stock("a")], ..ProductResult::default() };
        assembly.monitors[0].handle(MonitorEvent::Fetched(Ok(fetched)));
        assembly.monitors[0].handle(MonitorEvent::Woke);
    }
    let mut behind = assemble(&config).unwrap();
    assert_eq!(behind.monitors[0].start(), Some(MonitorAction::Fetch));
    for id in 0..33 {
        let fetched =
            ProductResult { id, variants: vec![in_stock("a")], ..ProductResult::default() };
        behind.monitors[0].handle(MonitorEvent::Fetched(Ok(fetched)));
        behind.monitors[0].handle(MonitorEvent::Woke);
    }
    for id in 0..32 {
        assert_eq!(assembly.workers[0].receiver().try_recv(), Ok((id, vec![in_stock("a")])));
    }
    assert_eq!(assembly.workers[0].receiver().try_recv(), Err(TryRecvError::Empty));
    assert_eq!(behind.workers[0].receiver().try_recv(), Err(TryRecvError::Lagged(1)));
    assert_eq!(behind.workers[0].receiver().try_recv(), Ok((1, vec![in_stock("a")])));
}
