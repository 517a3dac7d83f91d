//! Recording a payment in the shop database.
//!
//! The recording is one transaction of several queries. The decisions it
//! takes between the queries are `PaymentInsertion`, a state machine: it
//! names each query to run (`DbRequest`), is told how the query went
//! (`Result<u64, DbError>`), and finally says how the recording ended.
use vstd::prelude::*;

pub mod models;

use crate::stripe::product::{product_stripe_id, Product};
use crate::stripe::shipping::{shipping_stripe_id, ShippingDetails as PaymentShippingDetails};
use crate::stripe::{
    is_payment_of, lemma_products_of_ids, line_item_ids, session_error, CheckoutSessionData, PaymentInfo,
};
use models::{NewCustomer, NewOrder, NewOrderProduct, OrderOrigin, OrderStatus, ShippingDetails};

verus! {

/// Why a payment could not be recorded.
#[derive(Debug)]
pub enum InsertPaymentError {
    StartTx,
    CommitTx,
    CreateOrder,
    /// An order for this payment is already recorded.
    AlreadyExists,
    QueryCustomer,
    CreateCustomer,
    CreateOrderProduct,
    /// No product with this Stripe id is recorded.
    ProductNotFound(String),
    /// No shipping method with this Stripe id is recorded.
    ShippingMethodNotFound(String),
}

/// A recording error as plain values.
pub enum InsertErrorView {
    StartTx,
    CommitTx,
    CreateOrder,
    AlreadyExists,
    QueryCustomer,
    CreateCustomer,
    CreateOrderProduct,
    ProductNotFound(Seq<char>),
    ShippingMethodNotFound(Seq<char>),
}

impl View for InsertPaymentError {
    type V = InsertErrorView;

    open spec fn view(&self) -> InsertErrorView {
        match self {
            InsertPaymentError::StartTx => InsertErrorView::StartTx,
            InsertPaymentError::CommitTx => InsertErrorView::CommitTx,
            InsertPaymentError::CreateOrder => InsertErrorView::CreateOrder,
            InsertPaymentError::AlreadyExists => InsertErrorView::AlreadyExists,
            InsertPaymentError::QueryCustomer => InsertErrorView::QueryCustomer,
            InsertPaymentError::CreateCustomer => InsertErrorView::CreateCustomer,
            InsertPaymentError::CreateOrderProduct => InsertErrorView::CreateOrderProduct,
            InsertPaymentError::ProductNotFound(s) => InsertErrorView::ProductNotFound(s@),
            InsertPaymentError::ShippingMethodNotFound(s) => InsertErrorView::ShippingMethodNotFound(s@),
        }
    }
}

/// How a query failed.
#[derive(Debug, Clone, Copy, PartialEq, Eq, Structural)]
pub enum DbError {
    /// The query found no record.
    RecordNotFound,
    /// Any other failure.
    Other,
}

/// A query to run in the transaction. Its reply is `Ok` with the id of the
/// record found or created (any number for a query that returns none), or
/// the `DbError` it failed with.
#[derive(Debug, Clone)]
pub enum DbRequest {
    StartTransaction,
    FindOrderByPaymentId(String),
    FindCustomerByEmail(String),
    CreateCustomer(NewCustomer),
    FindShippingMethod(String),
    CreateOrder(NewOrder),
    FindProduct(String),
    CreateOrderProduct(NewOrderProduct),
    Commit,
}

/// A query as plain values.
pub enum RequestView {
    StartTransaction,
    FindOrderByPaymentId(Seq<char>),
    FindCustomerByEmail(Seq<char>),
    CreateCustomer(NewCustomer),
    FindShippingMethod(Seq<char>),
    CreateOrder(NewOrder),
    FindProduct(Seq<char>),
    CreateOrderProduct(NewOrderProduct),
    Commit,
}

impl View for DbRequest {
    type V = RequestView;

    open spec fn view(&self) -> RequestView {
        match self {
            DbRequest::StartTransaction => RequestView::StartTransaction,
            DbRequest::FindOrderByPaymentId(s) => RequestView::FindOrderByPaymentId(s@),
            DbRequest::FindCustomerByEmail(s) => RequestView::FindCustomerByEmail(s@),
            DbRequest::CreateCustomer(c) => RequestView::CreateCustomer(*c),
            DbRequest::FindShippingMethod(s) => RequestView::FindShippingMethod(s@),
            DbRequest::CreateOrder(o) => RequestView::CreateOrder(*o),
            DbRequest::FindProduct(s) => RequestView::FindProduct(s@),
            DbRequest::CreateOrderProduct(op) => RequestView::CreateOrderProduct(*op),
            DbRequest::Commit => RequestView::Commit,
        }
    }
}

/// What the recording does next: run a query, or end with this outcome
/// (an error rolls the transaction back).
#[derive(Debug)]
pub enum InsertAction {
    Request(DbRequest),
    Finish(Result<(), InsertPaymentError>),
}

/// An action as plain values.
pub enum ActionView {
    Request(RequestView),
    Finish(Result<(), InsertErrorView>),
}

impl View for InsertAction {
    type V = ActionView;

    open spec fn view(&self) -> ActionView {
        match self {
            InsertAction::Request(r) => ActionView::Request(r@),
            InsertAction::Finish(Ok(())) => ActionView::Finish(Ok(())),
            InsertAction::Finish(Err(e)) => ActionView::Finish(Err(e@)),
        }
    }
}

/// The query whose reply the recording waits for.
#[derive(Debug, Clone, Copy, PartialEq, Eq, Structural)]
pub enum InsertStep {
    AwaitTransaction,
    AwaitOrderLookup,
    AwaitCustomerLookup,
    AwaitCustomerCreation,
    AwaitShippingMethod,
    AwaitOrderCreation,
    /// The lookup of the product at this index of the payment.
    AwaitProduct(usize),
    /// The creation of the order product for the product at this index.
    AwaitOrderProduct(usize),
    AwaitCommit,
    Finished,
}

/// Where the recording stands, and the ids it has learned so far.
#[derive(Debug, Clone, Copy, PartialEq, Eq, Structural)]
pub struct InsertState {
    pub step: InsertStep,
    pub customer_id: u64,
    pub shipping_method_id: u64,
    pub order_id: u64,
}

/// The recording of one payment, driven query by query.
pub struct PaymentInsertion {
    payment: PaymentInfo,
    state: InsertState,
}

/// The state before the transaction is started.
pub open spec fn initial_insert_state() -> InsertState {
    InsertState { step: InsertStep::AwaitTransaction, customer_id: 0, shipping_method_id: 0, order_id: 0 }
}

/// The shipping details of an order, taken from those of a payment.
pub open spec fn order_shipping(d: PaymentShippingDetails) -> ShippingDetails {
    ShippingDetails {
        name: d.name,
        city: d.city,
        country: d.country,
        line1: d.line1,
        line2: d.line2,
        postal_code: d.postal_code,
        state: d.state,
    }
}

/// The order that records a payment: ordered, from Stripe, for the given
/// customer and shipping method.
pub open spec fn new_order_of(p: PaymentInfo, customer_id: u64, shipping_method_id: u64) -> NewOrder {
    NewOrder {
        stripe_payment_id: p.payment_id,
        amount_cents: p.revenue_cents,
        status: OrderStatus::Ordered,
        origin: OrderOrigin::Stripe,
        customer_id,
        shipping_method_id,
        shipping: order_shipping(p.shipping_details),
    }
}

/// The state and action after a step that finishes with `outcome`.
pub open spec fn finish(s: InsertState, outcome: Result<(), InsertErrorView>) -> (InsertState, ActionView) {
    (InsertState { step: InsertStep::Finished, ..s }, ActionView::Finish(outcome))
}

/// The step that looks up the product at index `i`, or commits when every
/// product is done.
pub open spec fn next_product(p: PaymentInfo, s: InsertState, i: int) -> (InsertState, ActionView) {
    if i < p.products@.len() {
        (
            InsertState { step: InsertStep::AwaitProduct(i as usize), ..s },
            ActionView::Request(RequestView::FindProduct(product_stripe_id(p.products@[i]))),
        )
    } else {
        (InsertState { step: InsertStep::AwaitCommit, ..s }, ActionView::Request(RequestView::Commit))
    }
}

/// How the recording of payment `p` answers the reply to the query it
/// waits for in state `s`.
pub open spec fn insert_next(p: PaymentInfo, s: InsertState, reply: Result<u64, DbError>) -> (InsertState, ActionView) {
    match s.step {
        InsertStep::AwaitTransaction => match reply {
            Ok(_) => (
                InsertState { step: InsertStep::AwaitOrderLookup, ..s },
                ActionView::Request(RequestView::FindOrderByPaymentId(p.payment_id@)),
            ),
            Err(_) => finish(s, Err(InsertErrorView::StartTx)),
        },
        InsertStep::AwaitOrderLookup => match reply {
            Ok(_) => finish(s, Err(InsertErrorView::AlreadyExists)),
            Err(_) => (
                InsertState { step: InsertStep::AwaitCustomerLookup, ..s },
                ActionView::Request(RequestView::FindCustomerByEmail(p.customer_email@)),
            ),
        },
        InsertStep::AwaitCustomerLookup => match reply {
            Ok(id) => (
                InsertState { step: InsertStep::AwaitShippingMethod, customer_id: id, ..s },
                ActionView::Request(RequestView::FindShippingMethod(shipping_stripe_id(p.shipping_method))),
            ),
            Err(DbError::RecordNotFound) => (
                InsertState { step: InsertStep::AwaitCustomerCreation, ..s },
                ActionView::Request(RequestView::CreateCustomer(NewCustomer { name: p.customer_name, email: p.customer_email })),
            ),
            Err(DbError::Other) => finish(s, Err(InsertErrorView::QueryCustomer)),
        },
        InsertStep::AwaitCustomerCreation => match reply {
            Ok(id) => (
                InsertState { step: InsertStep::AwaitShippingMethod, customer_id: id, ..s },
                ActionView::Request(RequestView::FindShippingMethod(shipping_stripe_id(p.shipping_method))),
            ),
            Err(_) => finish(s, Err(InsertErrorView::CreateCustomer)),
        },
        InsertStep::AwaitShippingMethod => match reply {
            Ok(id) => (
                InsertState { step: InsertStep::AwaitOrderCreation, shipping_method_id: id, ..s },
                ActionView::Request(RequestView::CreateOrder(new_order_of(p, s.customer_id, id))),
            ),
            Err(_) => finish(s, Err(InsertErrorView::ShippingMethodNotFound(shipping_stripe_id(p.shipping_method)))),
        },
        InsertStep::AwaitOrderCreation => match reply {
            Ok(id) => next_product(p, InsertState { order_id: id, ..s }, 0),
            Err(_) => finish(s, Err(InsertErrorView::CreateOrder)),
        },
        InsertStep::AwaitProduct(i) => match reply {
            Ok(id) => (
                InsertState { step: InsertStep::AwaitOrderProduct(i), ..s },
                ActionView::Request(RequestView::CreateOrderProduct(NewOrderProduct { order_id: s.order_id, product_id: id })),
            ),
            Err(_) => finish(s, Err(InsertErrorView::ProductNotFound(product_stripe_id(p.products@[i as int])))),
        },
        InsertStep::AwaitOrderProduct(i) => match reply {
            Ok(_) => next_product(p, s, i + 1),
            Err(_) => finish(s, Err(InsertErrorView::CreateOrderProduct)),
        },
        InsertStep::AwaitCommit => match reply {
            Ok(_) => finish(s, Ok(())),
            Err(_) => finish(s, Err(InsertErrorView::CommitTx)),
        },
        InsertStep::Finished => (s, ActionView::Finish(Ok(()))),
    }
}

/// A state that the recording of `p` can be in: an index it names is one
/// of the payment's products.
pub open spec fn insert_state_valid(p: PaymentInfo, s: InsertState) -> bool {
    match s.step {
        InsertStep::AwaitProduct(i) => i < p.products@.len(),
        InsertStep::AwaitOrderProduct(i) => i < p.products@.len(),
        _ => true,
    }
}

fn clone_opt_string(o: &Option<String>) -> (r: Option<String>)
    ensures
        r == *o,
{
    match o {
        Some(s) => Some(s.clone()),
        None => None,
    }
}

fn order_shipping_of(d: &PaymentShippingDetails) -> (r: ShippingDetails)
    ensures
        r == order_shipping(*d),
{
    ShippingDetails {
        name: d.name.clone(),
        city: clone_opt_string(&d.city),
        country: clone_opt_string(&d.country),
        line1: clone_opt_string(&d.line1),
        line2: clone_opt_string(&d.line2),
        postal_code: clone_opt_string(&d.postal_code),
        state: clone_opt_string(&d.state),
    }
}

impl PaymentInsertion {
    /// The payment being recorded.
    pub closed spec fn payment(&self) -> PaymentInfo {
        self.payment
    }

    /// Where the recording stands.
    pub closed spec fn state(&self) -> InsertState {
        self.state
    }

    /// Starts recording `payment`: the first query starts the transaction.
    pub fn new(payment: PaymentInfo) -> (r: (PaymentInsertion, DbRequest))
        ensures
            r.0.payment() == payment,
            r.0.state() == initial_insert_state(),
            r.1@ == RequestView::StartTransaction,
    {
        (
            PaymentInsertion {
                payment,
                state: InsertState { step: InsertStep::AwaitTransaction, customer_id: 0, shipping_method_id: 0, order_id: 0 },
            },
            DbRequest::StartTransaction,
        )
    }

    /// The query whose reply the recording waits for.
    pub fn step(&self) -> (r: InsertStep)
        ensures
            r == self.state().step,
    {
        self.state.step
    }

    /// Whether the recording has ended.
    pub fn is_finished(&self) -> (r: bool)
        ensures
            r == (self.state().step == InsertStep::Finished),
    {
        self.state.step == InsertStep::Finished
    }

    fn lookup_product(&mut self, i: usize) -> (a: InsertAction)
        requires
            i < old(self).payment.products@.len(),
        ensures
            final(self).payment == old(self).payment,
            final(self).state == (InsertState { step: InsertStep::AwaitProduct(i), ..old(self).state }),
            a@ == ActionView::Request(RequestView::FindProduct(product_stripe_id(old(self).payment.products@[i as int]))),
    {
        self.state.step = InsertStep::AwaitProduct(i);
        let id = self.payment.products[i].stripe_id();
        InsertAction::Request(DbRequest::FindProduct(id.to_string()))
    }

    fn finish_with(&mut self, outcome: Result<(), InsertPaymentError>) -> (a: InsertAction)
        ensures
            final(self).payment == old(self).payment,
            final(self).state == (InsertState { step: InsertStep::Finished, ..old(self).state }),
            a == (InsertAction::Finish(outcome)),
    {
        self.state.step = InsertStep::Finished;
        InsertAction::Finish(outcome)
    }

    /// Takes the reply to the query the recording waits for and says what to
    /// do next, as `insert_next` describes.
    pub fn advance(&mut self, reply: Result<u64, DbError>) -> (a: InsertAction)
        requires
            old(self).state().step != InsertStep::Finished,
            insert_state_valid(old(self).payment(), old(self).state()),
        ensures
            final(self).payment() == old(self).payment(),
            (final(self).state(), a@) == insert_next(old(self).payment(), old(self).state(), reply),
            insert_state_valid(final(self).payment(), final(self).state()),
    {
        match self.state.step {
            InsertStep::AwaitTransaction => match reply {
                Ok(_) => {
                    self.state.step = InsertStep::AwaitOrderLookup;
                    InsertAction::Request(DbRequest::FindOrderByPaymentId(self.payment.payment_id.clone()))
                },
                Err(_) => self.finish_with(Err(InsertPaymentError::StartTx)),
            },
            InsertStep::AwaitOrderLookup => match reply {
                Ok(_) => self.finish_with(Err(InsertPaymentError::AlreadyExists)),
                Err(_) => {
                    self.state.step = InsertStep::AwaitCustomerLookup;
                    InsertAction::Request(DbRequest::FindCustomerByEmail(self.payment.customer_email.clone()))
                },
            },
            InsertStep::AwaitCustomerLookup => match reply {
                Ok(id) => {
                    self.state.step = InsertStep::AwaitShippingMethod;
                    self.state.customer_id = id;
                    InsertAction::Request(DbRequest::FindShippingMethod(self.payment.shipping_method.stripe_id().to_string()))
                },
                Err(DbError::RecordNotFound) => {
                    self.state.step = InsertStep::AwaitCustomerCreation;
                    InsertAction::Request(DbRequest::CreateCustomer(NewCustomer {
                        name: self.payment.customer_name.clone(),
                        email: self.payment.customer_email.clone(),
                    }))
                },
                Err(DbError::Other) => self.finish_with(Err(InsertPaymentError::QueryCustomer)),
            },
            InsertStep::AwaitCustomerCreation => match reply {
                Ok(id) => {
                    self.state.step = InsertStep::AwaitShippingMethod;
                    self.state.customer_id = id;
                    InsertAction::Request(DbRequest::FindShippingMethod(self.payment.shipping_method.stripe_id().to_string()))
                },
                Err(_) => self.finish_with(Err(InsertPaymentError::CreateCustomer)),
            },
            InsertStep::AwaitShippingMethod => match reply {
                Ok(id) => {
                    self.state.step = InsertStep::AwaitOrderCreation;
                    self.state.shipping_method_id = id;
                    let order = NewOrder {
                        stripe_payment_id: self.payment.payment_id.clone(),
                        amount_cents: self.payment.revenue_cents,
                        status: OrderStatus::Ordered,
                        origin: OrderOrigin::Stripe,
                        customer_id: self.state.customer_id,
                        shipping_method_id: id,
                        shipping: order_shipping_of(&self.payment.shipping_details),
                    };
                    InsertAction::Request(DbRequest::CreateOrder(order))
                },
                Err(_) => {
                    let id = self.payment.shipping_method.stripe_id().to_string();
                    self.finish_with(Err(InsertPaymentError::ShippingMethodNotFound(id)))
                },
            },
            InsertStep::AwaitOrderCreation => match reply {
                Ok(id) => {
                    self.state.order_id = id;
                    if self.payment.products.len() > 0 {
                        self.lookup_product(0)
                    } else {
                        self.state.step = InsertStep::AwaitCommit;
                        InsertAction::Request(DbRequest::Commit)
                    }
                },
                Err(_) => self.finish_with(Err(InsertPaymentError::CreateOrder)),
            },
            InsertStep::AwaitProduct(i) => match reply {
                Ok(id) => {
                    self.state.step = InsertStep::AwaitOrderProduct(i);
                    InsertAction::Request(DbRequest::CreateOrderProduct(NewOrderProduct { order_id: self.state.order_id, product_id: id }))
                },
                Err(_) => {
                    let id = self.payment.products[i].stripe_id().to_string();
                    self.finish_with(Err(InsertPaymentError::ProductNotFound(id)))
                },
            },
            InsertStep::AwaitOrderProduct(i) => match reply {
                Ok(_) => {
                    assert(i < self.payment.products.len());
                    if i + 1 < self.payment.products.len() {
                        self.lookup_product(i + 1)
                    } else {
                        self.state.step = InsertStep::AwaitCommit;
                        InsertAction::Request(DbRequest::Commit)
                    }
                },
                Err(_) => self.finish_with(Err(InsertPaymentError::CreateOrderProduct)),
            },
            InsertStep::AwaitCommit => match reply {
                Ok(_) => self.finish_with(Ok(())),
                Err(_) => self.finish_with(Err(InsertPaymentError::CommitTx)),
            },
            InsertStep::Finished => InsertAction::Finish(Ok(())),
        }
    }
}

/// The recording of `p` run on a sequence of replies: the state it ends in
/// and every action it took, from the start of the transaction on. Replies
/// that come after it finished change nothing.
pub open spec fn insert_run(p: PaymentInfo, replies: Seq<Result<u64, DbError>>) -> (InsertState, Seq<ActionView>)
    decreases replies.len(),
{
    if replies.len() == 0 {
        (initial_insert_state(), seq![ActionView::Request(RequestView::StartTransaction)])
    } else {
        let prev = insert_run(p, replies.drop_last());
        if prev.0.step == InsertStep::Finished {
            prev
        } else {
            let next = insert_next(p, prev.0, replies.last());
            (next.0, prev.1.push(next.1))
        }
    }
}

/// The Stripe ids of the products looked up by a sequence of actions, in order.
pub open spec fn product_lookups(acts: Seq<ActionView>) -> Seq<Seq<char>>
    decreases acts.len(),
{
    if acts.len() == 0 {
        Seq::empty()
    } else {
        match acts.last() {
            ActionView::Request(RequestView::FindProduct(id)) => product_lookups(acts.drop_last()).push(id),
            _ => product_lookups(acts.drop_last()),
        }
    }
}

/// How many orders a sequence of actions creates.
pub open spec fn orders_created(acts: Seq<ActionView>) -> nat
    decreases acts.len(),
{
    if acts.len() == 0 {
        0
    } else {
        orders_created(acts.drop_last()) + if acts.last() is Request && acts.last()->Request_0 is CreateOrder { 1nat } else { 0nat }
    }
}

/// How many order products a sequence of actions creates.
pub open spec fn order_products_created(acts: Seq<ActionView>) -> nat
    decreases acts.len(),
{
    if acts.len() == 0 {
        0
    } else {
        order_products_created(acts.drop_last()) + if acts.last() is Request && acts.last()->Request_0 is CreateOrderProduct { 1nat } else { 0nat }
    }
}

/// The payment ids of the orders that a sequence of actions creates, in order.
pub open spec fn recorded_payment_ids(acts: Seq<ActionView>) -> Seq<Seq<char>>
    decreases acts.len(),
{
    if acts.len() == 0 {
        Seq::empty()
    } else {
        match acts.last() {
            ActionView::Request(RequestView::CreateOrder(o)) => recorded_payment_ids(acts.drop_last()).push(o.stripe_payment_id@),
            _ => recorded_payment_ids(acts.drop_last()),
        }
    }
}

/// The Stripe ids of a payment's products, in order.
pub open spec fn payment_product_ids(p: PaymentInfo) -> Seq<Seq<char>> {
    p.products@.map_values(|pr: Product| product_stripe_id(pr))
}

/// What the actions taken so far say of the state the recording is in.
pub open spec fn insert_run_inv(p: PaymentInfo, s: InsertState, acts: Seq<ActionView>) -> bool {
    let n = p.products@.len();
    let ids = payment_product_ids(p);
    let one = seq![p.payment_id@];
    &&& acts.len() >= 1
    &&& acts[0] == ActionView::Request(RequestView::StartTransaction)
    &&& insert_state_valid(p, s)
    &&& match s.step {
        InsertStep::AwaitProduct(i) => recorded_payment_ids(acts) == one && orders_created(acts) == 1 && order_products_created(acts) == i
            && product_lookups(acts) == ids.take(i + 1),
        InsertStep::AwaitOrderProduct(i) => recorded_payment_ids(acts) == one && orders_created(acts) == 1 && order_products_created(acts) == i + 1
            && product_lookups(acts) == ids.take(i + 1),
        InsertStep::AwaitOrderCreation => recorded_payment_ids(acts) == one && orders_created(acts) == 1 && order_products_created(acts) == 0
            && product_lookups(acts) == Seq::<Seq<char>>::empty(),
        InsertStep::AwaitCommit => recorded_payment_ids(acts) == one && orders_created(acts) == 1 && order_products_created(acts) == n
            && product_lookups(acts) == ids && acts.last() == ActionView::Request(RequestView::Commit),
        InsertStep::Finished => acts.last() is Finish && (acts.last() == ActionView::Finish(Ok(())) ==> {
            &&& recorded_payment_ids(acts) == one
            &&& orders_created(acts) == 1
            &&& order_products_created(acts) == n
            &&& product_lookups(acts) == ids
            &&& acts.len() >= 2
            &&& acts[acts.len() - 2] == ActionView::Request(RequestView::Commit)
        }),
        _ => recorded_payment_ids(acts) == Seq::<Seq<char>>::empty() && orders_created(acts) == 0 && order_products_created(acts) == 0 && product_lookups(acts) == Seq::<Seq<char>>::empty(),
    }
}

proof fn lemma_counts_push(acts: Seq<ActionView>, a: ActionView)
    ensures
        orders_created(acts.push(a)) == orders_created(acts) + if a is Request && a->Request_0 is CreateOrder { 1nat } else { 0nat },
        order_products_created(acts.push(a)) == order_products_created(acts) + if a is Request && a->Request_0 is CreateOrderProduct { 1nat } else { 0nat },
        product_lookups(acts.push(a)) == match a {
            ActionView::Request(RequestView::FindProduct(id)) => product_lookups(acts).push(id),
            _ => product_lookups(acts),
        },
        acts.push(a)[0] == if acts.len() == 0 { a } else { acts[0] },
        recorded_payment_ids(acts.push(a)) == match a {
            ActionView::Request(RequestView::CreateOrder(o)) => recorded_payment_ids(acts).push(o.stripe_payment_id@),
            _ => recorded_payment_ids(acts),
        },
{
    assert(acts.push(a).drop_last() =~= acts);
}

proof fn lemma_insert_step_keeps_inv(p: PaymentInfo, s: InsertState, acts: Seq<ActionView>, reply: Result<u64, DbError>)
    requires
        insert_run_inv(p, s, acts),
        s.step != InsertStep::Finished,
    ensures
        insert_run_inv(p, insert_next(p, s, reply).0, acts.push(insert_next(p, s, reply).1)),
{
    let next = insert_next(p, s, reply);
    lemma_counts_push(acts, next.1);
    let ids = payment_product_ids(p);
    let n = p.products@.len();
    assert(n == p.products.len());
    assert(acts.push(next.1).last() == next.1);
    match s.step {
        InsertStep::AwaitOrderCreation => {
            if n > 0 {
                assert(ids[0] == product_stripe_id(p.products@[0]));
                assert(Seq::<Seq<char>>::empty().push(ids[0]) =~= ids.take(1));
            } else {
                assert(ids =~= Seq::<Seq<char>>::empty());
            }
        },
        InsertStep::AwaitOrderProduct(i) => {
            if i + 1 < n {
                assert(ids[i + 1] == product_stripe_id(p.products@[i + 1]));
                assert(ids.take(i + 2) =~= ids.take(i + 1).push(ids[i + 1]));
            } else {
                assert(ids.take(i + 1) =~= ids);
            }
        },
        InsertStep::AwaitCommit => {
            assert(acts.push(next.1)[acts.push(next.1).len() - 2] == acts.last());
        },
        _ => {},
    }
}

proof fn lemma_insert_run_inv(p: PaymentInfo, replies: Seq<Result<u64, DbError>>)
    ensures
        insert_run_inv(p, insert_run(p, replies).0, insert_run(p, replies).1),
    decreases replies.len(),
{
    if replies.len() == 0 {
        let e = Seq::<ActionView>::empty();
        let a = ActionView::Request(RequestView::StartTransaction);
        assert(orders_created(e) == 0);
        assert(order_products_created(e) == 0);
        assert(product_lookups(e) == Seq::<Seq<char>>::empty());
        assert(recorded_payment_ids(e) == Seq::<Seq<char>>::empty());
        lemma_counts_push(e, a);
        assert(e.push(a) =~= seq![a]);
    } else {
        lemma_insert_run_inv(p, replies.drop_last());
        let prev = insert_run(p, replies.drop_last());
        if prev.0.step != InsertStep::Finished {
            lemma_insert_step_keeps_inv(p, prev.0, prev.1, replies.last());
        }
    }
}

/// A recording that commits has written, in its one transaction, exactly one
/// order, which carries the payment's id, and one order product per product
/// of the payment: it looked up the
/// payment's products by their Stripe ids, in order, created an order product
/// for each, and committed last.
pub proof fn lemma_committed_recording(p: PaymentInfo, replies: Seq<Result<u64, DbError>>)
    requires
        insert_run(p, replies).1.last() == ActionView::Finish(Ok(())),
    ensures
        insert_run(p, replies).1[0] == ActionView::Request(RequestView::StartTransaction),
        recorded_payment_ids(insert_run(p, replies).1) == seq![p.payment_id@],
        orders_created(insert_run(p, replies).1) == 1,
        order_products_created(insert_run(p, replies).1) == p.products@.len(),
        product_lookups(insert_run(p, replies).1) == payment_product_ids(p),
        insert_run(p, replies).1.len() >= 2,
        insert_run(p, replies).1[insert_run(p, replies).1.len() - 2] == ActionView::Request(RequestView::Commit),
{
    lemma_insert_run_inv(p, replies);
}

/// The order that a recording creates, once the shipping method is found, is
/// the payment's: its payment id and amount, ordered, from Stripe, for the
/// customer found or created and the shipping method found, and shipped to
/// exactly the payment's shipping details, field by field (the recipient's
/// name, not the buyer's).
pub proof fn lemma_created_order_is_the_payments(p: PaymentInfo, s: InsertState, shipping_method_id: u64)
    requires
        s.step == InsertStep::AwaitShippingMethod,
    ensures
        insert_next(p, s, Ok(shipping_method_id)).1 matches ActionView::Request(RequestView::CreateOrder(o)) && {
            &&& o.stripe_payment_id == p.payment_id
            &&& o.amount_cents == p.revenue_cents
            &&& o.status == OrderStatus::Ordered
            &&& o.origin == OrderOrigin::Stripe
            &&& o.customer_id == s.customer_id
            &&& o.shipping_method_id == shipping_method_id
            &&& o.shipping.name == p.shipping_details.name
            &&& o.shipping.city == p.shipping_details.city
            &&& o.shipping.country == p.shipping_details.country
            &&& o.shipping.line1 == p.shipping_details.line1
            &&& o.shipping.line2 == p.shipping_details.line2
            &&& o.shipping.postal_code == p.shipping_details.postal_code
            &&& o.shipping.state == p.shipping_details.state
        },
{
}

/// The queries of a recording are about the payment and use the ids that the
/// database gave back: the order lookup is by the payment's id, the customer
/// lookup by the customer's e-mail, a new customer gets the payment's
/// customer name and e-mail, the customer found or created is the one the
/// order is for, and each order product links the created order to the
/// product found.
pub proof fn lemma_recording_uses_payment_and_found_ids(p: PaymentInfo, s: InsertState, id: u64)
    ensures
        s.step == InsertStep::AwaitTransaction ==> insert_next(p, s, Ok(id)).1
            == ActionView::Request(RequestView::FindOrderByPaymentId(p.payment_id@)),
        s.step == InsertStep::AwaitOrderLookup ==> insert_next(p, s, Err(DbError::RecordNotFound)).1
            == ActionView::Request(RequestView::FindCustomerByEmail(p.customer_email@)),
        s.step == InsertStep::AwaitCustomerLookup ==> (insert_next(p, s, Err(DbError::RecordNotFound)).1
            matches ActionView::Request(RequestView::CreateCustomer(c)) && c.name == p.customer_name && c.email == p.customer_email),
        s.step == InsertStep::AwaitCustomerLookup || s.step == InsertStep::AwaitCustomerCreation
            ==> insert_next(p, s, Ok(id)).0.customer_id == id,
        s.step == InsertStep::AwaitOrderCreation ==> insert_next(p, s, Ok(id)).0.order_id == id,
        s.step is AwaitProduct ==> (insert_next(p, s, Ok(id)).1
            matches ActionView::Request(RequestView::CreateOrderProduct(op)) && op.order_id == s.order_id && op.product_id == id),
{
}

/// A payment whose order is already recorded is refused with `AlreadyExists`
/// and nothing is written: once the transaction has started and the lookup
/// of the payment's order finds one, the recording ends.
pub proof fn lemma_recorded_payment_refused(p: PaymentInfo, replies: Seq<Result<u64, DbError>>)
    requires
        replies.len() >= 2,
        replies[0] is Ok,
        replies[1] is Ok,
    ensures
        insert_run(p, replies).0.step == InsertStep::Finished,
        insert_run(p, replies).1 == seq![
            ActionView::Request(RequestView::StartTransaction),
            ActionView::Request(RequestView::FindOrderByPaymentId(p.payment_id@)),
            ActionView::Finish(Err(InsertErrorView::AlreadyExists)),
        ],
    decreases replies.len(),
{
    if replies.len() == 2 {
        let r1 = replies.drop_last();
        assert(r1.drop_last() =~= Seq::<Result<u64, DbError>>::empty());
        assert(r1.last() == replies[0]);
        assert(replies.last() == replies[1]);
        let s0 = insert_run(p, r1.drop_last());
        assert(s0.0 == initial_insert_state());
        let s1 = insert_run(p, r1);
        assert(s1.0.step == InsertStep::AwaitOrderLookup);
        assert(insert_run(p, replies).1 =~= seq![
            ActionView::Request(RequestView::StartTransaction),
            ActionView::Request(RequestView::FindOrderByPaymentId(p.payment_id@)),
            ActionView::Finish(Err(InsertErrorView::AlreadyExists)),
        ]);
    } else {
        lemma_recorded_payment_refused(p, replies.drop_last());
    }
}

/// Replaying a payment writes nothing. A recording of `p` that commits
/// creates one order, under `p`'s payment id; a later recording of a payment
/// `q` with the same id first looks that id up, and when the database finds
/// the order there it is refused with `AlreadyExists` without creating an
/// order, a customer or an order product.
pub proof fn lemma_replayed_payment_refused(
    p: PaymentInfo,
    first: Seq<Result<u64, DbError>>,
    q: PaymentInfo,
    second: Seq<Result<u64, DbError>>,
)
    requires
        insert_run(p, first).1.last() == ActionView::Finish(Ok(())),
        q.payment_id@ == p.payment_id@,
        second.len() >= 2,
        second[0] is Ok,
        second[1] is Ok,
    ensures
        recorded_payment_ids(insert_run(p, first).1) == seq![p.payment_id@],
        insert_run(q, second).1[1] == ActionView::Request(RequestView::FindOrderByPaymentId(p.payment_id@)),
        insert_run(q, second).1.last() == ActionView::Finish(Err(InsertErrorView::AlreadyExists)),
        recorded_payment_ids(insert_run(q, second).1) == Seq::<Seq<char>>::empty(),
        orders_created(insert_run(q, second).1) == 0,
        order_products_created(insert_run(q, second).1) == 0,
        forall|i: int| 0 <= i < insert_run(q, second).1.len()
            ==> !(#[trigger] insert_run(q, second).1[i] matches ActionView::Request(RequestView::CreateCustomer(_))),
{
    lemma_committed_recording(p, first);
    lemma_recorded_payment_refused(q, second);
    lemma_insert_run_inv(q, second);
    let acts = insert_run(q, second).1;
    assert(acts.len() == 3);
    assert(acts.drop_last().drop_last().drop_last() =~= Seq::<ActionView>::empty());
    reveal_with_fuel(recorded_payment_ids, 4);
    reveal_with_fuel(orders_created, 4);
    reveal_with_fuel(order_products_created, 4);
}

/// A checkout session that is read as a payment and then recorded with a
/// commit has its products looked up by the session's own line-item product
/// ids, one lookup per line item, in order.
pub proof fn lemma_recorded_checkout_products(
    session: CheckoutSessionData,
    info: PaymentInfo,
    replies: Seq<Result<u64, DbError>>,
)
    requires
        session_error(session) is None,
        is_payment_of(info, session),
        insert_run(info, replies).1.last() == ActionView::Finish(Ok(())),
    ensures
        product_lookups(insert_run(info, replies).1).map_values(|id: Seq<char>| Some(id))
            == line_item_ids(session.line_item_products->0),
{
    let ids = line_item_ids(session.line_item_products->0);
    lemma_committed_recording(info, replies);
    lemma_products_of_ids(ids);
    let lookups = product_lookups(insert_run(info, replies).1);
    assert(lookups == payment_product_ids(info));
    assert(lookups.map_values(|id: Seq<char>| Some(id)) =~= ids);
}

} // verus!
