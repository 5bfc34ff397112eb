//! Subscription requests: one shape per stream kind, each composed of
//! only the filter dimensions meaningful to that kind. Unused dimensions
//! of the configuration are omitted from the request, never carried
//! along.

use vstd::prelude::*;

use crate::config::FiltersConfig;
use crate::filters::AddressFilter;
use crate::filters::create_address_filter;
use crate::filters::filter_of;
use crate::filters::filter_rep;
use crate::filters::list_rep;
use crate::kinds::StreamKind;

verus! {

/// Request shape for the trades stream: program, pool, token and trader
/// dimensions.
#[derive(Debug, PartialEq, Eq)]
pub struct SubscribeTradesRequest {
    pub program: Option<AddressFilter>,
    pub pool: Option<AddressFilter>,
    pub token: Option<AddressFilter>,
    pub trader: Option<AddressFilter>,
}

/// Request shape for the orders stream: program, pool, token and trader
/// dimensions.
#[derive(Debug, PartialEq, Eq)]
pub struct SubscribeOrdersRequest {
    pub program: Option<AddressFilter>,
    pub pool: Option<AddressFilter>,
    pub token: Option<AddressFilter>,
    pub trader: Option<AddressFilter>,
}

/// Request shape for the pools stream: program, pool and token
/// dimensions.
#[derive(Debug, PartialEq, Eq)]
pub struct SubscribePoolsRequest {
    pub program: Option<AddressFilter>,
    pub pool: Option<AddressFilter>,
    pub token: Option<AddressFilter>,
}

/// Request shape for the transactions stream: program and signer
/// dimensions.
#[derive(Debug, PartialEq, Eq)]
pub struct SubscribeTransactionsRequest {
    pub program: Option<AddressFilter>,
    pub signer: Option<AddressFilter>,
}

/// Request shape for the transfers stream: sender, receiver and token
/// dimensions.
#[derive(Debug, PartialEq, Eq)]
pub struct SubscribeTransfersRequest {
    pub sender: Option<AddressFilter>,
    pub receiver: Option<AddressFilter>,
    pub token: Option<AddressFilter>,
}

/// Request shape for the balance-updates stream: address and token
/// dimensions.
#[derive(Debug, PartialEq, Eq)]
pub struct SubscribeBalanceUpdateRequest {
    pub address: Option<AddressFilter>,
    pub token: Option<AddressFilter>,
}

/// A subscription request of one of the six shapes, tagged by the stream
/// kind it subscribes to.
#[derive(Debug, PartialEq, Eq)]
pub enum SubscriptionRequest {
    Trades(SubscribeTradesRequest),
    Orders(SubscribeOrdersRequest),
    Pools(SubscribePoolsRequest),
    Transactions(SubscribeTransactionsRequest),
    Transfers(SubscribeTransfersRequest),
    Balances(SubscribeBalanceUpdateRequest),
}

/// The request owed for a stream kind under a configuration's filter
/// section: the shape matches the kind, and each of the kind's filter
/// dimensions holds exactly the filter its configured list gives rise
/// to. Dimensions outside the kind's set do not appear.
pub open spec fn is_request_for(kind: StreamKind, filters: FiltersConfig, r: SubscriptionRequest) -> bool {
    match kind {
        StreamKind::DexTrades => {
            &&& r matches SubscriptionRequest::Trades(q)
            &&& filter_rep(q.program) == filter_of(list_rep(filters.programs))
            &&& filter_rep(q.pool) == filter_of(list_rep(filters.pools))
            &&& filter_rep(q.token) == filter_of(list_rep(filters.tokens))
            &&& filter_rep(q.trader) == filter_of(list_rep(filters.traders))
        },
        StreamKind::DexOrders => {
            &&& r matches SubscriptionRequest::Orders(q)
            &&& filter_rep(q.program) == filter_of(list_rep(filters.programs))
            &&& filter_rep(q.pool) == filter_of(list_rep(filters.pools))
            &&& filter_rep(q.token) == filter_of(list_rep(filters.tokens))
            &&& filter_rep(q.trader) == filter_of(list_rep(filters.traders))
        },
        StreamKind::DexPools => {
            &&& r matches SubscriptionRequest::Pools(q)
            &&& filter_rep(q.program) == filter_of(list_rep(filters.programs))
            &&& filter_rep(q.pool) == filter_of(list_rep(filters.pools))
            &&& filter_rep(q.token) == filter_of(list_rep(filters.tokens))
        },
        StreamKind::Transactions => {
            &&& r matches SubscriptionRequest::Transactions(q)
            &&& filter_rep(q.program) == filter_of(list_rep(filters.programs))
            &&& filter_rep(q.signer) == filter_of(list_rep(filters.signers))
        },
        StreamKind::Transfers => {
            &&& r matches SubscriptionRequest::Transfers(q)
            &&& filter_rep(q.sender) == filter_of(list_rep(filters.senders))
            &&& filter_rep(q.receiver) == filter_of(list_rep(filters.receivers))
            &&& filter_rep(q.token) == filter_of(list_rep(filters.tokens))
        },
        StreamKind::Balances => {
            &&& r matches SubscriptionRequest::Balances(q)
            &&& filter_rep(q.address) == filter_of(list_rep(filters.addresses))
            &&& filter_rep(q.token) == filter_of(list_rep(filters.tokens))
        },
    }
}

/// Copies a vector of address strings, preserving contents and order.
fn copy_addresses(src: &Vec<String>) -> (r: Vec<String>)
    ensures
        r@ == src@,
{
    let mut r: Vec<String> = Vec::new();
    let mut i: usize = 0;
    while i < src.len()
        invariant
            i <= src.len(),
            r@ == src@.subrange(0, i as int),
        decreases src.len() - i,
    {
        r.push(src[i].clone());
        i = i + 1;
        proof {
            assert(r@ =~= src@.subrange(0, i as int));
        }
    }
    proof {
        assert(src@.subrange(0, src.len() as int) =~= src@);
    }
    r
}

/// Builds the optional filter for one dimension from a borrowed
/// configured list.
fn dimension_filter(list: &Option<Vec<String>>) -> (r: Option<AddressFilter>)
    ensures
        filter_rep(r) == filter_of(list_rep(*list)),
{
    match list {
        Option::None => Option::None,
        Option::Some(v) => create_address_filter(Option::Some(copy_addresses(v))),
    }
}

/// Builds the trades request from the configuration's filter section.
pub fn build_trades_request(filters: &FiltersConfig) -> (r: SubscribeTradesRequest)
    ensures
        is_request_for(StreamKind::DexTrades, *filters, SubscriptionRequest::Trades(r)),
{
    SubscribeTradesRequest {
        program: dimension_filter(&filters.programs),
        pool: dimension_filter(&filters.pools),
        token: dimension_filter(&filters.tokens),
        trader: dimension_filter(&filters.traders),
    }
}

/// Builds the orders request from the configuration's filter section.
pub fn build_orders_request(filters: &FiltersConfig) -> (r: SubscribeOrdersRequest)
    ensures
        is_request_for(StreamKind::DexOrders, *filters, SubscriptionRequest::Orders(r)),
{
    SubscribeOrdersRequest {
        program: dimension_filter(&filters.programs),
        pool: dimension_filter(&filters.pools),
        token: dimension_filter(&filters.tokens),
        trader: dimension_filter(&filters.traders),
    }
}

/// Builds the pools request from the configuration's filter section.
pub fn build_pools_request(filters: &FiltersConfig) -> (r: SubscribePoolsRequest)
    ensures
        is_request_for(StreamKind::DexPools, *filters, SubscriptionRequest::Pools(r)),
{
    SubscribePoolsRequest {
        program: dimension_filter(&filters.programs),
        pool: dimension_filter(&filters.pools),
        token: dimension_filter(&filters.tokens),
    }
}

/// Builds the transactions request from the configuration's filter
/// section.
pub fn build_transactions_request(filters: &FiltersConfig) -> (r: SubscribeTransactionsRequest)
    ensures
        is_request_for(StreamKind::Transactions, *filters, SubscriptionRequest::Transactions(r)),
{
    SubscribeTransactionsRequest {
        program: dimension_filter(&filters.programs),
        signer: dimension_filter(&filters.signers),
    }
}

/// Builds the transfers request from the configuration's filter section.
pub fn build_transfers_request(filters: &FiltersConfig) -> (r: SubscribeTransfersRequest)
    ensures
        is_request_for(StreamKind::Transfers, *filters, SubscriptionRequest::Transfers(r)),
{
    SubscribeTransfersRequest {
        sender: dimension_filter(&filters.senders),
        receiver: dimension_filter(&filters.receivers),
        token: dimension_filter(&filters.tokens),
    }
}

/// Builds the balance-updates request from the configuration's filter
/// section.
pub fn build_balances_request(filters: &FiltersConfig) -> (r: SubscribeBalanceUpdateRequest)
    ensures
        is_request_for(StreamKind::Balances, *filters, SubscriptionRequest::Balances(r)),
{
    SubscribeBalanceUpdateRequest {
        address: dimension_filter(&filters.addresses),
        token: dimension_filter(&filters.tokens),
    }
}

/// Builds the request of the shape matching the given stream kind from
/// the configuration's filter section.
pub fn build_request(kind: &StreamKind, filters: &FiltersConfig) -> (r: SubscriptionRequest)
    ensures
        is_request_for(*kind, *filters, r),
{
    match kind {
        StreamKind::DexTrades => SubscriptionRequest::Trades(build_trades_request(filters)),
        StreamKind::DexOrders => SubscriptionRequest::Orders(build_orders_request(filters)),
        StreamKind::DexPools => SubscriptionRequest::Pools(build_pools_request(filters)),
        StreamKind::Transactions => SubscriptionRequest::Transactions(
            build_transactions_request(filters),
        ),
        StreamKind::Transfers => SubscriptionRequest::Transfers(build_transfers_request(filters)),
        StreamKind::Balances => SubscriptionRequest::Balances(build_balances_request(filters)),
    }
}

/// Dimension isolation: a pools request is characterized by the program,
/// pool and token dimensions alone, so a configuration that additionally
/// sets other dimensions (traders, signers, or any other) admits exactly
/// the same pools requests as one that does not.
pub proof fn lemma_pools_dimension_isolation(
    f1: FiltersConfig,
    f2: FiltersConfig,
    r: SubscriptionRequest,
)
    requires
        is_request_for(StreamKind::DexPools, f1, r),
        f2.programs == f1.programs,
        f2.pools == f1.pools,
        f2.tokens == f1.tokens,
    ensures
        is_request_for(StreamKind::DexPools, f2, r),
{
}

} // verus!
