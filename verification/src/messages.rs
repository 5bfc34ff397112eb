//! One unit of streamed data: block context, transaction context, and an
//! optional domain payload per stream kind. A message is read once and
//! never retained beyond the rendering step.

use vstd::prelude::*;

verus! {

/// Block context of a message: the sequence (slot) number.
pub struct BlockContext {
    pub slot: u64,
}

/// Transaction context of a message: the transaction's signature bytes.
pub struct TransactionContext {
    pub signature: Vec<u8>,
}

/// The exchange program a trade, order or pool event originated from.
pub struct DexInfo {
    pub program_address: Vec<u8>,
}

/// The market a trade took place on.
pub struct MarketInfo {
    pub market_address: Vec<u8>,
}

/// Domain payload of a trades message.
pub struct TradeEvent {
    pub dex: Option<DexInfo>,
    pub market: Option<MarketInfo>,
}

/// Domain payload of an orders message.
pub struct OrderEvent {
    pub dex: Option<DexInfo>,
}

/// Domain payload of a pools message.
pub struct PoolEvent {
    pub dex: Option<DexInfo>,
}

/// One side of a transfer.
pub struct TransferParty {
    pub address: Vec<u8>,
}

/// Domain payload of a transfers message.
pub struct TransferEvent {
    pub sender: Option<TransferParty>,
    pub receiver: Option<TransferParty>,
}

/// The token a balance update concerns.
pub struct Currency {
    pub mint_address: Vec<u8>,
}

/// Domain payload of a balance-updates message.
pub struct BalanceUpdateEvent {
    pub currency: Option<Currency>,
}

/// One incoming message from an open stream. Every sub-structure is
/// optional on the wire; the rendering step reads only the parts
/// relevant to the subscribed stream kind.
pub struct IncomingMessage {
    pub block: Option<BlockContext>,
    pub transaction: Option<TransactionContext>,
    pub trade: Option<TradeEvent>,
    pub order: Option<OrderEvent>,
    pub pool_event: Option<PoolEvent>,
    pub transfer: Option<TransferEvent>,
    pub balance_update: Option<BalanceUpdateEvent>,
}

} // verus!
