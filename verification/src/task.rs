//! The purchase worker: one buyer's session and purchase cycles, as a
//! machine that is told what happened and says what to do next.

use vstd::prelude::*;
use vstd::string::*;
use rand::rngs::OsRng;
use rand::rngs::SmallRng;
use rand::seq::SliceRandom;
use rand::SeedableRng;
use tokio::sync::broadcast::Receiver;
use crate::endpoint::delivers;
use crate::endpoint::excuses;
use crate::endpoint::finalize_url;
use crate::endpoint::order_url;
use crate::endpoint::orders_url;
use crate::endpoint::session_url;
use crate::endpoint::BaseUrl;
use crate::endpoint::Outcome;
use crate::error::Error;
use crate::error::RecvError;
use crate::model::Address;
use crate::model::FPSAddress;
use crate::model::FPSCardPaymentIntent;
use crate::model::FPSCity;
use crate::model::FPSCreateOrder;
use crate::model::FPSItem;
use crate::model::FPSPatchAddress;
use crate::model::FPSState;
use crate::model::Profile;
use crate::model::Variant;
use crate::monitor::Snapshot;
use crate::retry::RetryBudget;

verus! {

#[verifier::external_type_specification]
#[verifier::external_body]
pub struct ExSmallRng(SmallRng);

/// How often the session may be attempted.
pub const SESSION_ATTEMPTS: u32 = 6;

/// How often the creation of one order may be attempted.
pub const ORDER_ATTEMPTS: u32 = 11;

/// How often the assignment of an order's addresses may be attempted.
pub const ADDRESS_ATTEMPTS: u32 = 11;

/// Where a worker stands.
#[derive(Debug, Clone, Copy, PartialEq, Eq, Structural)]
pub enum Phase {
    /// Not started.
    Uninitialized,
    /// Establishing the session.
    Session { budget: RetryBudget },
    /// Session ready; waiting for the first snapshot.
    AwaitingSnapshot,
    /// Creating the order of a purchase cycle.
    CreatingOrder { budget: RetryBudget },
    /// Assigning the addresses of the order.
    AssigningAddress { order: i64, budget: RetryBudget },
    /// Submitting the payment of the order.
    SubmittingPayment { order: i64 },
    /// Ended by a failure that nothing mends.
    Stopped,
}

/// What a worker knows: where it stands, and the snapshot it buys from.
#[derive(Debug, PartialEq)]
pub struct Progress {
    pub phase: Phase,
    pub pool: Option<Snapshot>,
}

/// What ends a worker.
#[derive(Debug, PartialEq)]
pub enum Failure {
    /// The last attempt at the session failed, with this error.
    SessionFailed(Error),
    /// The snapshot channel closed before a snapshot came.
    ChannelClosed,
    /// The snapshot holds no variant to buy.
    MissingVariant,
    /// The last attempt at creating an order failed, with this error.
    OrderCreationFailed(Error),
    /// The last attempt at assigning addresses failed, with this error.
    AddressAssignmentFailed(Error),
}

/// What happened outside since the worker last asked for something.
#[derive(Debug, PartialEq)]
pub enum Event {
    /// The session request ended.
    Session(Result<(), Error>),
    /// The receive on the snapshot channel ended.
    Snapshot(Result<Snapshot, RecvError>),
    /// The order creation ended, with the new order's identifier.
    Order(Result<i64, Error>),
    /// The address patch ended.
    Address(Result<(), Error>),
    /// The payment submission ended.
    Payment(Result<(), Error>),
}

/// What the worker asks to be done next.
#[derive(Debug, PartialEq)]
pub enum Action {
    /// Request the current user, which establishes the session.
    CreateSession,
    /// Receive one snapshot from the storefront's channel.
    ReceiveSnapshot,
    /// Create an order of one piece of this variant.
    CreateOrder { product: i64, variant: Variant },
    /// Patch the order's billing and shipping addresses.
    PatchAddress { order: i64 },
    /// Submit the card to the order's finalize endpoint.
    SubmitPayment { order: i64 },
    /// Nothing more: the worker has ended.
    Stop(Failure),
}

/// A worker that has not started.
pub open spec fn initial() -> Progress {
    Progress { phase: Phase::Uninitialized, pool: None }
}

/// The first attempt, or the next, at creating an order: of the variant
/// drawn, with `budget` for this order. Without a variant the worker ends.
pub open spec fn order_attempt(pool: Option<Snapshot>, pick: Option<Variant>, budget: RetryBudget) -> (
    Progress,
    Action,
) {
    match (pool, pick) {
        (Some(snapshot), Some(variant)) => (
            Progress { phase: Phase::CreatingOrder { budget }, pool },
            Action::CreateOrder { product: snapshot.0, variant },
        ),
        _ => (Progress { phase: Phase::Stopped, pool }, Action::Stop(Failure::MissingVariant)),
    }
}

/// Whether the step that `event` causes begins an attempt at an order, for
/// which a variant is drawn.
pub open spec fn draws(phase: Phase, event: Event) -> bool {
    match (phase, event) {
        (Phase::AwaitingSnapshot, Event::Snapshot(Ok(_))) => true,
        (Phase::CreatingOrder { budget }, Event::Order(Err(_))) => budget.after_failure() is Some,
        (Phase::SubmittingPayment { .. }, Event::Payment(_)) => true,
        _ => false,
    }
}

/// The snapshot that the step draws from: the one that arrives with the
/// event, else the one retained.
pub open spec fn pool_at(before: Progress, event: Event) -> Option<Snapshot> {
    match (before.phase, event) {
        (Phase::AwaitingSnapshot, Event::Snapshot(Ok(snapshot))) => Some(snapshot),
        _ => before.pool,
    }
}

/// Whether `pick` can be the outcome of drawing a variant from `pool`: one
/// of its variants, and none only where it has none.
pub open spec fn drawn_from(pick: Option<Variant>, pool: Option<Snapshot>) -> bool {
    match (pool, pick) {
        (Some(snapshot), Some(variant)) => snapshot.1@.contains(variant),
        (Some(snapshot), None) => snapshot.1@.len() == 0,
        (None, Some(_)) => false,
        (None, None) => true,
    }
}

/// Whether `pick` can be what the step that `event` causes has drawn: a
/// variant of the snapshot where it draws, nothing where it does not.
pub open spec fn fair_pick(before: Progress, event: Event, pick: Option<Variant>) -> bool {
    if draws(before.phase, event) {
        drawn_from(pick, pool_at(before, event))
    } else {
        pick is None
    }
}

/// The worker's rule: what it knows and asks for after `event`, given the
/// variant drawn where the step draws one. `None` where the worker is not
/// waiting for that event.
pub open spec fn step(before: Progress, event: Event, pick: Option<Variant>) -> Option<
    (Progress, Action),
> {
    let pool = before.pool;
    match (before.phase, event) {
        (Phase::Session { budget }, Event::Session(Ok(_))) => Some(
            (Progress { phase: Phase::AwaitingSnapshot, pool }, Action::ReceiveSnapshot),
        ),
        (Phase::Session { budget }, Event::Session(Err(e))) => match budget.after_failure() {
            Some(left) => Some(
                (Progress { phase: Phase::Session { budget: left }, pool }, Action::CreateSession),
            ),
            None => Some(
                (
                    Progress { phase: Phase::Stopped, pool },
                    Action::Stop(Failure::SessionFailed(e)),
                ),
            ),
        },
        (Phase::AwaitingSnapshot, Event::Snapshot(Ok(snapshot))) => Some(
            order_attempt(Some(snapshot), pick, RetryBudget::fresh(ORDER_ATTEMPTS)),
        ),
        (Phase::AwaitingSnapshot, Event::Snapshot(Err(RecvError::Lagged(_)))) => Some(
            (Progress { phase: Phase::AwaitingSnapshot, pool }, Action::ReceiveSnapshot),
        ),
        (Phase::AwaitingSnapshot, Event::Snapshot(Err(RecvError::Closed))) => Some(
            (Progress { phase: Phase::Stopped, pool }, Action::Stop(Failure::ChannelClosed)),
        ),
        (Phase::CreatingOrder { budget }, Event::Order(Ok(order))) => Some(
            (
                Progress {
                    phase: Phase::AssigningAddress {
                        order,
                        budget: RetryBudget::fresh(ADDRESS_ATTEMPTS),
                    },
                    pool,
                },
                Action::PatchAddress { order },
            ),
        ),
        (Phase::CreatingOrder { budget }, Event::Order(Err(e))) => match budget.after_failure() {
            Some(left) => Some(order_attempt(pool, pick, left)),
            None => Some(
                (
                    Progress { phase: Phase::Stopped, pool },
                    Action::Stop(Failure::OrderCreationFailed(e)),
                ),
            ),
        },
        (Phase::AssigningAddress { order, budget }, Event::Address(Ok(_))) => Some(
            (
                Progress { phase: Phase::SubmittingPayment { order }, pool },
                Action::SubmitPayment { order },
            ),
        ),
        (Phase::AssigningAddress { order, budget }, Event::Address(Err(e))) => match budget.after_failure() {
            Some(left) => Some(
                (
                    Progress { phase: Phase::AssigningAddress { order, budget: left }, pool },
                    Action::PatchAddress { order },
                ),
            ),
            None => Some(
                (
                    Progress { phase: Phase::Stopped, pool },
                    Action::Stop(Failure::AddressAssignmentFailed(e)),
                ),
            ),
        },
        (Phase::SubmittingPayment { order }, Event::Payment(_)) => Some(
            order_attempt(pool, pick, RetryBudget::fresh(ORDER_ATTEMPTS)),
        ),
        _ => None,
    }
}

fn attempt_order(progress: &mut Progress, pick: Option<Variant>, budget: RetryBudget) -> (action:
    Action)
    ensures
        (*final(progress), action) == order_attempt(old(progress).pool, pick, budget),
{
    match (&progress.pool, pick) {
        (Some(snapshot), Some(variant)) => {
            let product = snapshot.0;
            progress.phase = Phase::CreatingOrder { budget };
            Action::CreateOrder { product, variant }
        },
        _ => {
            progress.phase = Phase::Stopped;
            Action::Stop(Failure::MissingVariant)
        },
    }
}

/// Takes the worker one step on: `progress` becomes what the rule gives
/// for `event` and the variant drawn, and the action it asks for is handed
/// back. An event that the worker is not waiting for changes nothing and
/// gets no answer.
pub fn advance(progress: &mut Progress, event: Event, pick: Option<Variant>) -> (action: Option<
    Action,
>)
    ensures
        match step(*old(progress), event, pick) {
            Some((after, next)) => *final(progress) == after && action == Some(next),
            None => *final(progress) == *old(progress) && action is None,
        },
{
    match (progress.phase, event) {
        (Phase::Session { budget }, Event::Session(Ok(_))) => {
            progress.phase = Phase::AwaitingSnapshot;
            Some(Action::ReceiveSnapshot)
        },
        (Phase::Session { budget }, Event::Session(Err(e))) => match budget.record_failure() {
            Some(left) => {
                progress.phase = Phase::Session { budget: left };
                Some(Action::CreateSession)
            },
            None => {
                progress.phase = Phase::Stopped;
                Some(Action::Stop(Failure::SessionFailed(e)))
            },
        },
        (Phase::AwaitingSnapshot, Event::Snapshot(Ok(snapshot))) => {
            progress.pool = Some(snapshot);
            Some(attempt_order(progress, pick, RetryBudget::new(ORDER_ATTEMPTS)))
        },
        (Phase::AwaitingSnapshot, Event::Snapshot(Err(RecvError::Lagged(_)))) => Some(
            Action::ReceiveSnapshot,
        ),
        (Phase::AwaitingSnapshot, Event::Snapshot(Err(RecvError::Closed))) => {
            progress.phase = Phase::Stopped;
            Some(Action::Stop(Failure::ChannelClosed))
        },
        (Phase::CreatingOrder { budget }, Event::Order(Ok(order))) => {
            progress.phase = Phase::AssigningAddress {
                order,
                budget: RetryBudget::new(ADDRESS_ATTEMPTS),
            };
            Some(Action::PatchAddress { order })
        },
        (Phase::CreatingOrder { budget }, Event::Order(Err(e))) => match budget.record_failure() {
            Some(left) => Some(attempt_order(progress, pick, left)),
            None => {
                progress.phase = Phase::Stopped;
                Some(Action::Stop(Failure::OrderCreationFailed(e)))
            },
        },
        (Phase::AssigningAddress { order, budget }, Event::Address(Ok(_))) => {
            progress.phase = Phase::SubmittingPayment { order };
            Some(Action::SubmitPayment { order })
        },
        (Phase::AssigningAddress { order, budget }, Event::Address(Err(e))) => match budget.record_failure() {
            Some(left) => {
                progress.phase = Phase::AssigningAddress { order, budget: left };
                Some(Action::PatchAddress { order })
            },
            None => {
                progress.phase = Phase::Stopped;
                Some(Action::Stop(Failure::AddressAssignmentFailed(e)))
            },
        },
        (Phase::SubmittingPayment { order }, Event::Payment(_)) => Some(
            attempt_order(progress, pick, RetryBudget::new(ORDER_ATTEMPTS)),
        ),
        _ => None,
    }
}

/// Whether `after` and `action` are what the rule gives for `event` and the
/// variant drawn: the new knowledge and the next action, or nothing new
/// and no action where the worker is not waiting for that event.
pub open spec fn follows(
    before: Progress,
    event: Event,
    pick: Option<Variant>,
    after: Progress,
    action: Option<Action>,
) -> bool {
    match step(before, event, pick) {
        Some((then, next)) => after == then && action == Some(next),
        None => after == before && action is None,
    }
}

/// Calls `SeedableRng::from_rng` for a `SmallRng`, with `OsRng` as the
/// source of its seed, and hands back the generator, or the description of
/// the failure where the system gave no entropy. Which of the two comes is
/// a matter of the system, and nothing is claimed of the generator.
#[verifier::external_body]
pub(crate) fn seed_generator() -> (seeded: Result<SmallRng, String>) {
    match SmallRng::from_rng(OsRng) {
        Ok(generator) => Ok(generator),
        Err(e) => Err(e.to_string()),
    }
}

/// Calls `SliceRandom::choose`. Trusted: that it returns one of the
/// slice's elements, and `None` only for an empty slice. Which element
/// is a matter of the generator.
#[verifier::external_body]
fn choose_variant<'a>(pool: &'a Vec<Variant>, rng: &mut SmallRng) -> (pick: Option<&'a Variant>)
    ensures
        match pick {
            Some(variant) => pool@.contains(*variant),
            None => pool@.len() == 0,
        },
{
    pool.choose(rng)
}

fn draw_from(pool: &Option<Snapshot>, rng: &mut SmallRng) -> (pick: Option<Variant>)
    ensures
        drawn_from(pick, *pool),
{
    match pool {
        Some(snapshot) => match choose_variant(&snapshot.1, rng) {
            Some(variant) => Some(variant.clone()),
            None => None,
        },
        None => None,
    }
}

/// A request to send: where, and with what body.
#[derive(Debug, PartialEq)]
pub struct Request<B> {
    pub url: String,
    pub body: B,
}

/// The text of an optional field: empty where the field is absent.
pub open spec fn text_or_empty(text: Option<String>) -> Seq<char> {
    match text {
        Some(t) => t@,
        None => Seq::empty(),
    }
}

/// Whether `address` is `source` as the vendor wants it, with the
/// buyer's `phone`.
pub open spec fn is_address(address: FPSAddress, source: Address, phone: Seq<char>) -> bool {
    &&& address.first_name@ == source.first_name@
    &&& address.last_name@ == source.last_name@
    &&& *address.country == source.country.fps
    &&& address.address_line1@ == source.address1@
    &&& address.address_line2@ == text_or_empty(source.address2)
    &&& address.address_line3@ == Seq::<char>::empty()
    &&& address.city.name@ == source.city@
    &&& address.state.name@ == text_or_empty(source.state)
    &&& address.zip_code@ == source.zip@
    &&& address.phone@ == phone
}

/// Whether `body` orders one piece of `variant` of `product` for the guest
/// `email`, shipped by the merchant.
pub open spec fn is_order_body(
    body: FPSCreateOrder,
    email: Seq<char>,
    product: i64,
    variant: Variant,
) -> bool {
    &&& body.guest_user_email@ == email
    &&& !body.use_payment_intent
    &&& body.shipping_mode@ == "byMerchant"@
    &&& body.items@.len() == 1
    &&& body.items@[0].merchant_id == variant.merchant_id
    &&& body.items@[0].product_id == product
    &&& body.items@[0].quantity == 1
    &&& body.items@[0].variant_id@ == variant.id@
}

/// The name on the card: the billing address's first and last name.
pub open spec fn holder_name(profile: Profile) -> Seq<char> {
    profile.billing.first_name@ + seq![' '] + profile.billing.last_name@
}

/// Whether `body` submits the card of `profile` as a credit card.
pub open spec fn is_card_body(body: FPSCardPaymentIntent, profile: Profile) -> bool {
    &&& body.card_number@ == profile.card.number@
    &&& body.card_holder_name@ == holder_name(profile)
    &&& body.card_expiry_month == profile.card.expiry_month
    &&& body.card_expiry_year == profile.card.expiry_year
    &&& body.card_cvv@ == profile.card.cvv@
    &&& body.payment_method_type@ == "CreditCard"@
    &&& body.payment_method_id@ == "e13bb06b-392b-49a0-8acd-3f44416e3234"@
    &&& body.save_payment_method_as_token
}

fn optional_text<'a>(text: &'a Option<String>) -> (r: &'a str)
    ensures
        r@ == text_or_empty(*text),
{
    match text {
        Some(t) => t.as_str(),
        None => {
            proof {
                reveal_strlit("");
            }
            ""
        },
    }
}

fn address_of<'a>(source: &'a Address, phone: &'a str) -> (address: FPSAddress<'a>)
    ensures
        is_address(address, *source, phone@),
{
    proof {
        reveal_strlit("");
        assert(""@ =~= Seq::<char>::empty());
    }
    FPSAddress {
        first_name: source.first_name.as_str(),
        last_name: source.last_name.as_str(),
        country: source.country.fps_country(),
        address_line1: source.address1.as_str(),
        address_line2: optional_text(&source.address2),
        address_line3: "",
        city: FPSCity { name: source.city.as_str() },
        state: FPSState { name: optional_text(&source.state) },
        zip_code: source.zip.as_str(),
        phone,
    }
}

impl Failure {
    /// The error with which the worker's run ends: the error of the last
    /// attempt, a closed channel, or the unknown error "missing variant".
    pub fn into_error(self) -> (e: Error)
        ensures
            match self {
                Failure::SessionFailed(cause) => e == cause,
                Failure::ChannelClosed => e == Error::RecvError(RecvError::Closed),
                Failure::MissingVariant => e matches Error::Unknown(text) && text@
                    == "missing variant"@,
                Failure::OrderCreationFailed(cause) => e == cause,
                Failure::AddressAssignmentFailed(cause) => e == cause,
            },
    {
        match self {
            Failure::SessionFailed(cause) => cause,
            Failure::ChannelClosed => Error::RecvError(RecvError::Closed),
            Failure::MissingVariant => Error::Unknown("missing variant".to_owned()),
            Failure::OrderCreationFailed(cause) => cause,
            Failure::AddressAssignmentFailed(cause) => cause,
        }
    }
}

/// The purchase worker of one buyer.
#[derive(Debug)]
pub struct Task {
    profile: Profile,
    base_url: BaseUrl,
    receiver: Receiver<Snapshot>,
    rng: SmallRng,
    progress: Progress,
}

impl Task {
    /// The buyer.
    pub closed spec fn profile(&self) -> Profile {
        self.profile
    }

    /// The root of the storefront's API.
    pub closed spec fn base_url(&self) -> Seq<char> {
        self.base_url@
    }

    /// What the worker knows.
    pub closed spec fn progress(&self) -> Progress {
        self.progress
    }

    /// The channel end on which the worker listens.
    pub closed spec fn listens_on(&self) -> Receiver<Snapshot> {
        self.receiver
    }

    /// The generator from which the worker draws.
    pub closed spec fn generator(&self) -> SmallRng {
        self.rng
    }

    /// Whether `e` is the error for a worker that could not be made: where
    /// the storefront's API root is no URL, the error that this calls for;
    /// where it is one, the failure to seed the generator.
    pub open spec fn unmade(e: Error, root: Outcome) -> bool {
        match root {
            Outcome::Url(_) => e is Entropy,
            _ => excuses(e, root),
        }
    }

    /// A worker for `profile`, not started, in the storefront of the
    /// profile's delivery address, which listens on `receiver` and draws
    /// from a generator seeded by the system. Fails when that storefront's
    /// API root is no URL, and when the system gives no entropy for the seed.
    pub fn new(profile: Profile, receiver: Receiver<Snapshot>) -> (r: Result<Task, Error>)
        ensures
            match r {
                Ok(task) => {
                    &&& BaseUrl::parse_outcome(profile.delivery.country.base_url@) == Outcome::Url(
                        task.base_url(),
                    )
                    &&& task.profile() == profile
                    &&& task.listens_on() == receiver
                    &&& task.progress() == initial()
                },
                Err(e) => Self::unmade(
                    e,
                    BaseUrl::parse_outcome(profile.delivery.country.base_url@),
                ),
            },
    {
        Task::seeded(profile, receiver, seed_generator())
    }

    /// A worker for `profile`, not started, which listens on `receiver`,
    /// given how the seeding of its generator ended. Where the storefront's
    /// API root is no URL, the error is the one that this calls for; else
    /// the worker draws from the generator that came, or the error holds the
    /// failure that came in its place.
    pub fn seeded(
        profile: Profile,
        receiver: Receiver<Snapshot>,
        seeded: Result<SmallRng, String>,
    ) -> (r: Result<Task, Error>)
        ensures
            match r {
                Ok(task) => {
                    &&& BaseUrl::parse_outcome(profile.delivery.country.base_url@) == Outcome::Url(
                        task.base_url(),
                    )
                    &&& seeded == Ok::<SmallRng, String>(task.generator())
                    &&& task.profile() == profile
                    &&& task.listens_on() == receiver
                    &&& task.progress() == initial()
                },
                Err(e) => match BaseUrl::parse_outcome(profile.delivery.country.base_url@) {
                    Outcome::Url(_) => seeded matches Err(text) && e == Error::Entropy(text),
                    other => excuses(e, other),
                },
            },
    {
        match BaseUrl::parse(profile.delivery.country.fps_base_url()) {
            Ok(base_url) => match seeded {
                Ok(generator) => Ok(Task::with_root(profile, base_url, receiver, generator)),
                Err(text) => Err(Error::Entropy(text)),
            },
            Err(e) => Err(e),
        }
    }

    /// A worker for `profile`, not started, in the storefront with this API
    /// root, which listens on `receiver` and draws from `generator`.
    fn with_root(
        profile: Profile,
        base_url: BaseUrl,
        receiver: Receiver<Snapshot>,
        generator: SmallRng,
    ) -> (task: Task)
        ensures
            task.base_url() == base_url@,
            task.profile() == profile,
            task.listens_on() == receiver,
            task.generator() == generator,
            task.progress() == initial(),
    {
        Task {
            profile,
            base_url,
            receiver,
            rng: generator,
            progress: Progress { phase: Phase::Uninitialized, pool: None },
        }
    }

    /// The receiver on which the worker listens, for the receive that the
    /// worker asks for. The worker itself is left as it is.
    pub fn receiver(&mut self) -> (receiver: &mut Receiver<Snapshot>)
        ensures
            *receiver == old(self).listens_on(),
            final(self).listens_on() == *final(receiver),
            final(self).profile() == old(self).profile(),
            final(self).base_url() == old(self).base_url(),
            final(self).progress() == old(self).progress(),
    {
        &mut self.receiver
    }

    /// Starts the worker: one that has not started asks for the session.
    /// One that has started is left as it is.
    pub fn start(&mut self) -> (action: Option<Action>)
        ensures
            final(self).profile() == old(self).profile(),
            final(self).base_url() == old(self).base_url(),
            final(self).listens_on() == old(self).listens_on(),
            final(self).progress().pool == old(self).progress().pool,
            old(self).progress().phase == Phase::Uninitialized ==> {
                &&& final(self).progress().phase == Phase::Session {
                    budget: RetryBudget::fresh(SESSION_ATTEMPTS),
                }
                &&& action == Some(Action::CreateSession)
            },
            old(self).progress().phase != Phase::Uninitialized ==> {
                &&& final(self).progress() == old(self).progress()
                &&& action is None
            },
    {
        match self.progress.phase {
            Phase::Uninitialized => {
                self.progress.phase = Phase::Session { budget: RetryBudget::new(SESSION_ATTEMPTS) };
                Some(Action::CreateSession)
            },
            _ => None,
        }
    }

    /// Takes what happened and says what to do next, by the worker's rule.
    /// Where the step begins an attempt at an order, the variant is drawn
    /// at random from the snapshot: any of its variants may come.
    pub fn handle(&mut self, event: Event) -> (action: Option<Action>)
        ensures
            final(self).profile() == old(self).profile(),
            final(self).base_url() == old(self).base_url(),
            final(self).listens_on() == old(self).listens_on(),
            exists|pick: Option<Variant>|
                fair_pick(old(self).progress(), event, pick) && follows(
                    old(self).progress(),
                    event,
                    pick,
                    final(self).progress(),
                    action,
                ),
    {
        let pick = self.draw(&event);
        let action = advance(&mut self.progress, event, pick);
        assert(fair_pick(old(self).progress(), event, pick) && follows(
            old(self).progress(),
            event,
            pick,
            self.progress(),
            action,
        ));
        action
    }

    fn draw(&mut self, event: &Event) -> (pick: Option<Variant>)
        ensures
            final(self).profile() == old(self).profile(),
            final(self).base_url() == old(self).base_url(),
            final(self).listens_on() == old(self).listens_on(),
            final(self).progress() == old(self).progress(),
            fair_pick(old(self).progress(), *event, pick),
    {
        let retained: bool = match (self.progress.phase, event) {
            (Phase::AwaitingSnapshot, Event::Snapshot(Ok(snapshot))) => {
                return match choose_variant(&snapshot.1, &mut self.rng) {
                    Some(variant) => Some(variant.clone()),
                    None => None,
                };
            },
            (Phase::CreatingOrder { budget }, Event::Order(Err(_))) => budget.record_failure().is_some(),
            (Phase::SubmittingPayment { .. }, Event::Payment(_)) => true,
            _ => false,
        };
        if retained {
            draw_from(&self.progress.pool, &mut self.rng)
        } else {
            None
        }
    }

    /// Where the worker stands.
    pub fn phase(&self) -> (phase: Phase)
        ensures
            phase == self.progress().phase,
    {
        self.progress.phase
    }

    /// The snapshot that the worker buys from, once it has received one.
    pub fn pool(&self) -> (pool: &Option<Snapshot>)
        ensures
            *pool == self.progress().pool,
    {
        &self.progress.pool
    }

    /// The URL of the session request.
    pub fn create_session(&self) -> (r: Result<String, Error>)
        ensures
            delivers(r, session_url(self.base_url())),
    {
        self.base_url.session()
    }

    /// The request that creates an order of one piece of `variant`.
    pub fn create_order<'a>(&'a self, product: i64, variant: Variant) -> (r: Result<
        Request<FPSCreateOrder<'a>>,
        Error,
    >)
        ensures
            match r {
                Ok(request) => {
                    &&& orders_url(self.base_url()) == Outcome::Url(request.url@)
                    &&& is_order_body(request.body, self.profile().email@, product, variant)
                },
                Err(e) => excuses(e, orders_url(self.base_url())),
            },
    {
        let url = match self.base_url.orders() {
            Ok(url) => url,
            Err(e) => {
                return Err(e);
            },
        };
        let item = FPSItem {
            merchant_id: variant.merchant_id,
            product_id: product,
            quantity: 1,
            variant_id: variant.id,
        };
        let body = FPSCreateOrder {
            guest_user_email: self.profile.email.as_str(),
            use_payment_intent: false,
            shipping_mode: "byMerchant",
            items: vec![item],
        };
        Ok(Request { url, body })
    }

    /// The request that assigns the buyer's addresses to the order.
    pub fn patch_address<'a>(&'a self, order: i64) -> (r: Result<
        Request<FPSPatchAddress<'a>>,
        Error,
    >)
        ensures
            match r {
                Ok(request) => {
                    &&& order_url(self.base_url(), order as int) == Outcome::Url(request.url@)
                    &&& is_address(
                        request.body.billing_address,
                        self.profile().billing,
                        self.profile().phone@,
                    )
                    &&& is_address(
                        request.body.shipping_address,
                        self.profile().delivery,
                        self.profile().phone@,
                    )
                },
                Err(e) => excuses(e, order_url(self.base_url(), order as int)),
            },
    {
        let url = match self.base_url.order(order) {
            Ok(url) => url,
            Err(e) => {
                return Err(e);
            },
        };
        let phone = self.profile.phone.as_str();
        let body = FPSPatchAddress {
            billing_address: address_of(&self.profile.billing, phone),
            shipping_address: address_of(&self.profile.delivery, phone),
        };
        Ok(Request { url, body })
    }

    /// The request that submits the buyer's card for the order.
    pub fn submit_payment<'a>(&'a self, order: i64) -> (r: Result<
        Request<FPSCardPaymentIntent<'a>>,
        Error,
    >)
        ensures
            match r {
                Ok(request) => {
                    &&& finalize_url(self.base_url(), order as int) == Outcome::Url(request.url@)
                    &&& is_card_body(request.body, self.profile())
                },
                Err(e) => excuses(e, finalize_url(self.base_url(), order as int)),
            },
    {
        let url = match self.base_url.finalize(order) {
            Ok(url) => url,
            Err(e) => {
                return Err(e);
            },
        };
        let mut holder = self.profile.billing.first_name.clone();
        holder.append(" ");
        holder.append(self.profile.billing.last_name.as_str());
        proof {
            reveal_strlit(" ");
            assert(" "@ =~= seq![' ']);
        }
        let body = FPSCardPaymentIntent {
            card_number: self.profile.card.number.as_str(),
            card_holder_name: holder,
            card_expiry_month: self.profile.card.expiry_month,
            card_expiry_year: self.profile.card.expiry_year,
            card_cvv: self.profile.card.cvv.as_str(),
            payment_method_type: "CreditCard",
            payment_method_id: "e13bb06b-392b-49a0-8acd-3f44416e3234",
            save_payment_method_as_token: true,
        };
        Ok(Request { url, body })
    }
}

} // verus!
