//! The stock monitor: polls one product's catalog entry and publishes what
//! can be bought.

use vstd::prelude::*;
use tokio::sync::broadcast::Receiver;
use tokio::sync::broadcast::Sender;
use crate::country::Country;
use crate::endpoint::catalog_url;
use crate::endpoint::delivers;
use crate::endpoint::excuses;
use crate::endpoint::BaseUrl;
use crate::endpoint::Outcome;
use crate::error::Error;
use crate::model::ProductResult;
use crate::model::Variant;

verus! {

#[verifier::external_type_specification]
#[verifier::external_body]
#[verifier::reject_recursive_types(T)]
pub struct ExSender<T>(Sender<T>);

#[verifier::external_type_specification]
#[verifier::external_body]
#[verifier::reject_recursive_types(T)]
pub struct ExReceiver<T>(Receiver<T>);

/// What is published: a product's identifier and its purchasable variants.
pub type Snapshot = (i64, Vec<Variant>);

/// How long the monitor rests between two polls, in milliseconds.
pub const POLL_INTERVAL_MS: u64 = 1000;

/// How many snapshots a subscriber may fall behind before it loses some.
pub const CHANNEL_CAPACITY: usize = 32;

/// Whether a variant can be bought.
pub open spec fn in_stock(variant: Variant) -> bool {
    variant.quantity > 0
}

/// The variants that can be bought, in the order in which they came.
pub open spec fn purchasable_of(variants: Seq<Variant>) -> Seq<Variant> {
    variants.filter(|v: Variant| in_stock(v))
}

/// What a catalog entry gives to publish: the product with its purchasable
/// variants, or nothing when there are none.
pub open spec fn snapshot_of(product: ProductResult) -> Option<(i64, Seq<Variant>)> {
    let kept = purchasable_of(product.variants@);
    if kept.len() > 0 {
        Some((product.id, kept))
    } else {
        None
    }
}

/// The variants that can be bought, in the order in which they came.
pub fn purchasable(variants: &Vec<Variant>) -> (kept: Vec<Variant>)
    ensures
        kept@ == purchasable_of(variants@),
{
    let ghost pred = |v: Variant| in_stock(v);
    let mut kept: Vec<Variant> = Vec::new();
    let mut i: usize = 0;
    proof {
        reveal(Seq::filter);
        assert(variants@.subrange(0, 0).filter(pred) =~= Seq::<Variant>::empty());
    }
    while i < variants.len()
        invariant
            i <= variants.len(),
            pred == |v: Variant| in_stock(v),
            kept@ == variants@.subrange(0, i as int).filter(pred),
        decreases variants.len() - i,
    {
        proof {
            let before = variants@.subrange(0, i as int);
            assert(variants@.subrange(0, i + 1) =~= before.push(variants@[i as int]));
            before.lemma_filter_push(variants@[i as int], pred);
        }
        if variants[i].quantity > 0 {
            kept.push(variants[i].clone());
        }
        i += 1;
    }
    proof {
        assert(variants@.subrange(0, i as int) =~= variants@);
    }
    kept
}

/// What a catalog entry gives to publish.
pub fn snapshot(product: &ProductResult) -> (r: Option<Snapshot>)
    ensures
        match snapshot_of(*product) {
            Some((id, kept)) => r matches Some(s) && s.0 == id && s.1@ == kept,
            None => r is None,
        },
{
    let kept = purchasable(&product.variants);
    if kept.len() > 0 {
        Some((product.id, kept))
    } else {
        None
    }
}

/// Everything that is kept is in stock, and every variant in stock is
/// kept.
pub proof fn law_kept_are_exactly_in_stock(variants: Seq<Variant>)
    ensures
        forall|i: int|
            0 <= i < purchasable_of(variants).len() ==> in_stock(
                #[trigger] purchasable_of(variants)[i],
            ),
        forall|i: int|
            0 <= i < variants.len() && in_stock(variants[i]) ==> purchasable_of(
                variants,
            ).contains(#[trigger] variants[i]),
{
    let pred = |v: Variant| in_stock(v);
    assert forall|i: int| 0 <= i < purchasable_of(variants).len() implies in_stock(
        #[trigger] purchasable_of(variants)[i],
    ) by {
        variants.lemma_filter_pred(pred, i);
    }
    assert forall|i: int| 0 <= i < variants.len() && in_stock(variants[i]) implies purchasable_of(
        variants,
    ).contains(#[trigger] variants[i]) by {
        variants.lemma_filter_contains(pred, i);
    }
}

/// What is kept comes in the order in which it came, each variant as often
/// as it came: what is kept of a list is what is kept of its front, then
/// what is kept of its back, and of a single variant it is that variant or
/// nothing.
pub proof fn law_kept_in_order(front: Seq<Variant>, back: Seq<Variant>, single: Variant)
    ensures
        purchasable_of(front + back) == purchasable_of(front) + purchasable_of(back),
        purchasable_of(seq![single]) == if in_stock(single) {
            seq![single]
        } else {
            Seq::<Variant>::empty()
        },
{
    let pred = |v: Variant| in_stock(v);
    Seq::filter_distributes_over_add(front, back, pred);
    let none = Seq::<Variant>::empty();
    none.lemma_filter_push(single, pred);
    none.lemma_filter_len(pred);
    assert(none.filter(pred) =~= none);
    assert(seq![single] =~= none.push(single));
}

/// Where the monitor stands in its round.
#[derive(Debug, Clone, Copy, PartialEq, Eq, Structural)]
pub enum MonitorPhase {
    /// Not started.
    Idle,
    /// A fetch of the catalog entry is under way.
    Fetching,
    /// Resting until the next poll.
    Sleeping,
}

/// What happened outside since the monitor last asked for something.
#[derive(Debug, PartialEq)]
pub enum MonitorEvent {
    /// The fetch ended: with the catalog entry, or with the failure of the
    /// request or of reading its body.
    Fetched(Result<ProductResult, Error>),
    /// The rest is over.
    Woke,
}

/// How one poll ended.
#[derive(Debug, PartialEq)]
pub enum Poll {
    /// The snapshot was handed to the channel. `receivers` is the number of
    /// subscribers it was queued for, `None` when there was none and the
    /// snapshot was dropped.
    Published { snapshot: Snapshot, receivers: Option<usize> },
    /// Nothing can be bought now: nothing was published.
    NoVariants,
    /// The fetch failed: nothing was published.
    Failed(Error),
}

/// What the monitor asks to be done next.
#[derive(Debug, PartialEq)]
pub enum MonitorAction {
    /// Fetch the catalog entry and report how it ended.
    Fetch,
    /// Rest for `millis` milliseconds; `report` says how the poll ended.
    Sleep { millis: u64, report: Poll },
}

/// Whether `report` is how a poll that fetched `fetched` ends.
pub open spec fn reports(report: Poll, fetched: Result<ProductResult, Error>) -> bool {
    match fetched {
        Err(e) => report == Poll::Failed(e),
        Ok(product) => match snapshot_of(product) {
            None => report is NoVariants,
            Some((id, kept)) => {
                &&& report matches Poll::Published { snapshot, receivers }
                &&& snapshot.0 == id
                &&& snapshot.1@ == kept
                &&& receivers matches Some(n) ==> n >= 1
            },
        },
    }
}

/// Whether `n` is a power of two.
pub open spec fn is_power_of_two(n: nat) -> bool
    decreases n,
{
    n == 1 || (n >= 2 && n % 2 == 0 && is_power_of_two(n / 2))
}

/// The capacity that the channel of this sending end was made with: how
/// many snapshots the channel keeps, so that a subscriber which falls
/// further behind loses some. It is fixed when the channel is made, and the
/// same for all its ends.
pub uninterp spec fn sender_capacity(sender: Sender<Snapshot>) -> nat;

/// The capacity that the channel of this receiving end was made with.
pub uninterp spec fn receiver_capacity(receiver: Receiver<Snapshot>) -> nat;

/// The channel that this sending end belongs to, as a mark that the ends of
/// one channel share. An end stays with its channel for good.
pub uninterp spec fn sender_channel(sender: Sender<Snapshot>) -> int;

/// The channel that this receiving end belongs to.
pub uninterp spec fn receiver_channel(receiver: Receiver<Snapshot>) -> int;

/// Calls `broadcast::channel`, which panics on a capacity of zero or over
/// half of `usize::MAX`, and which keeps as many snapshots as the next
/// power of two from the capacity: so a power of two is asked for. Trusted:
/// that the two ends are those of one channel, made with this capacity.
/// What passes through the channel is not a matter of the value of one end,
/// and nothing is claimed of it.
#[verifier::external_body]
fn open_channel(capacity: usize) -> (ends: (Sender<Snapshot>, Receiver<Snapshot>))
    requires
        0 < capacity <= usize::MAX / 2,
        is_power_of_two(capacity as nat),
    ensures
        sender_capacity(ends.0) == capacity,
        receiver_capacity(ends.1) == capacity,
        receiver_channel(ends.1) == sender_channel(ends.0),
{
    tokio::sync::broadcast::channel(capacity)
}

/// Calls `Sender::subscribe`, which panics at a quarter of `usize::MAX`
/// live receivers, more than memory holds. Trusted: that the receiver is an
/// end of the sender's channel, and so of a channel made with the same
/// capacity. What it will receive is a matter of what is sent later, and
/// nothing is claimed of it.
#[verifier::external_body]
fn subscribe_to(sender: &Sender<Snapshot>) -> (receiver: Receiver<Snapshot>)
    ensures
        receiver_capacity(receiver) == sender_capacity(*sender),
        receiver_channel(receiver) == sender_channel(*sender),
{
    sender.subscribe()
}

/// A snapshot channel: the end that publishes, and a first subscriber.
/// Each subscriber may fall `CHANNEL_CAPACITY` snapshots behind.
pub(crate) fn channel() -> (ends: (Sender<Snapshot>, Receiver<Snapshot>))
    ensures
        sender_capacity(ends.0) == CHANNEL_CAPACITY,
        receiver_capacity(ends.1) == CHANNEL_CAPACITY,
        receiver_channel(ends.1) == sender_channel(ends.0),
{
    assert(is_power_of_two(CHANNEL_CAPACITY as nat)) by {
        reveal_with_fuel(is_power_of_two, 6);
    }
    open_channel(CHANNEL_CAPACITY)
}

/// Calls `Sender::send`. Trusted: that a snapshot which was taken was
/// queued for at least one subscriber. Whether there is a subscriber is not
/// a matter of the arguments.
#[verifier::external_body]
fn send_snapshot(sender: &Sender<Snapshot>, snapshot: Snapshot) -> (receivers: Option<usize>)
    ensures
        receivers matches Some(n) ==> n >= 1,
{
    sender.send(snapshot).ok()
}

/// A copy of a snapshot: the same product, the same variants in the same
/// order.
fn copy_of(snapshot: &Snapshot) -> (copy: Snapshot)
    ensures
        copy.0 == snapshot.0,
        copy.1@ == snapshot.1@,
{
    let mut variants: Vec<Variant> = Vec::new();
    let mut i: usize = 0;
    while i < snapshot.1.len()
        invariant
            i <= snapshot.1.len(),
            variants@ == snapshot.1@.subrange(0, i as int),
        decreases snapshot.1.len() - i,
    {
        variants.push(snapshot.1[i].clone());
        assert(variants@ =~= snapshot.1@.subrange(0, i + 1));
        i += 1;
    }
    assert(variants@ =~= snapshot.1@);
    (snapshot.0, variants)
}

/// The poller of one product in one storefront.
#[derive(Debug)]
pub struct Monitor {
    product: String,
    base_url: BaseUrl,
    sender: Sender<Snapshot>,
    phase: MonitorPhase,
}

impl Monitor {
    /// The product that is polled.
    pub closed spec fn product(&self) -> Seq<char> {
        self.product@
    }

    /// The root of the storefront's API.
    pub closed spec fn base_url(&self) -> Seq<char> {
        self.base_url@
    }

    /// Where the monitor stands in its round.
    pub closed spec fn phase(&self) -> MonitorPhase {
        self.phase
    }

    /// The channel end through which the monitor publishes.
    pub closed spec fn publishes_through(&self) -> Sender<Snapshot> {
        self.sender
    }

    /// A monitor of `product` in the storefront of `country`, which
    /// publishes through `sender`. Fails when the storefront's API root is
    /// no URL.
    pub fn new(product: String, country: &Country, sender: Sender<Snapshot>) -> (r: Result<
        Monitor,
        Error,
    >)
        ensures
            match r {
                Ok(monitor) => {
                    &&& BaseUrl::parse_outcome(country.base_url@) == Outcome::Url(
                        monitor.base_url(),
                    )
                    &&& monitor.product() == product@
                    &&& monitor.publishes_through() == sender
                    &&& monitor.phase() == MonitorPhase::Idle
                },
                Err(e) => excuses(e, BaseUrl::parse_outcome(country.base_url@)),
            },
    {
        match BaseUrl::parse(country.fps_base_url()) {
            Ok(base_url) => Ok(Monitor::with_root(product, base_url, sender)),
            Err(e) => Err(e),
        }
    }

    /// A monitor of `product` in the storefront with this API root, which
    /// publishes through `sender`.
    pub(crate) fn with_root(product: String, base_url: BaseUrl, sender: Sender<Snapshot>) -> (monitor:
        Monitor)
        ensures
            monitor.base_url() == base_url@,
            monitor.product() == product@,
            monitor.publishes_through() == sender,
            monitor.phase() == MonitorPhase::Idle,
    {
        Monitor { product, base_url, sender, phase: MonitorPhase::Idle }
    }

    /// A new subscriber to what this monitor publishes from now on: a
    /// receiving end of the channel through which the monitor publishes,
    /// which may fall as far behind as that channel allows.
    pub(crate) fn subscribe(&self) -> (receiver: Receiver<Snapshot>)
        ensures
            receiver_channel(receiver) == sender_channel(self.publishes_through()),
            receiver_capacity(receiver) == sender_capacity(self.publishes_through()),
    {
        subscribe_to(&self.sender)
    }

    /// Where the monitor stands in its round.
    pub fn current_phase(&self) -> (phase: MonitorPhase)
        ensures
            phase == self.phase(),
    {
        self.phase
    }

    /// Starts the round: a monitor that has not started asks for the first
    /// fetch. One that has started is left as it is.
    pub fn start(&mut self) -> (action: Option<MonitorAction>)
        ensures
            final(self).product() == old(self).product(),
            final(self).base_url() == old(self).base_url(),
            final(self).publishes_through() == old(self).publishes_through(),
            old(self).phase() == MonitorPhase::Idle ==> final(self).phase()
                == MonitorPhase::Fetching && action matches Some(MonitorAction::Fetch),
            old(self).phase() != MonitorPhase::Idle ==> final(self).phase() == old(self).phase()
                && action is None,
    {
        match self.phase {
            MonitorPhase::Idle => {
                self.phase = MonitorPhase::Fetching;
                Some(MonitorAction::Fetch)
            },
            _ => None,
        }
    }

    /// The URL of the catalog entry, asked at `now_millis` milliseconds
    /// since the epoch.
    pub fn fetch_product(&self, now_millis: u128) -> (r: Result<String, Error>)
        ensures
            delivers(r, catalog_url(self.base_url(), self.product(), now_millis as nat)),
    {
        self.base_url.catalog(self.product.as_str(), now_millis)
    }

    /// Takes what happened and says what to do next. A fetch that ended is
    /// followed by a rest, whatever it brought: the snapshot of what can be
    /// bought is published first, if there is anything to buy. A rest that
    /// ended is followed by the next fetch. An event that the monitor is not
    /// waiting for changes nothing and gets no answer.
    pub fn handle(&mut self, event: MonitorEvent) -> (action: Option<MonitorAction>)
        ensures
            final(self).product() == old(self).product(),
            final(self).base_url() == old(self).base_url(),
            final(self).publishes_through() == old(self).publishes_through(),
            match (old(self).phase(), event) {
                (MonitorPhase::Fetching, MonitorEvent::Fetched(fetched)) => {
                    &&& final(self).phase() == MonitorPhase::Sleeping
                    &&& action matches Some(MonitorAction::Sleep { millis, report })
                    &&& millis == POLL_INTERVAL_MS
                    &&& reports(report, fetched)
                },
                (MonitorPhase::Sleeping, MonitorEvent::Woke) => {
                    &&& final(self).phase() == MonitorPhase::Fetching
                    &&& action matches Some(MonitorAction::Fetch)
                },
                _ => final(self).phase() == old(self).phase() && action is None,
            },
    {
        match (self.phase, event) {
            (MonitorPhase::Fetching, MonitorEvent::Fetched(fetched)) => {
                let report = self.publish(fetched);
                self.phase = MonitorPhase::Sleeping;
                Some(MonitorAction::Sleep { millis: POLL_INTERVAL_MS, report })
            },
            (MonitorPhase::Sleeping, MonitorEvent::Woke) => {
                self.phase = MonitorPhase::Fetching;
                Some(MonitorAction::Fetch)
            },
            _ => None,
        }
    }

    /// Publishes what a fetch brought, if it brought anything to buy.
    fn publish(&self, fetched: Result<ProductResult, Error>) -> (report: Poll)
        ensures
            reports(report, fetched),
    {
        match fetched {
            Err(e) => Poll::Failed(e),
            Ok(product) => match snapshot(&product) {
                None => Poll::NoVariants,
                Some(snapshot) => {
                    let receivers = send_snapshot(&self.sender, copy_of(&snapshot));
                    Poll::Published { snapshot, receivers }
                },
            },
        }
    }
}

} // verus!
