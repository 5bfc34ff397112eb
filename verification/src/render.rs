//! Rendering of one incoming message: extraction of the block context
//! and of the payload fields relevant to the subscribed stream kind,
//! with binary address fields converted to their base58 text form. The
//! rendered record is handed to an external reporting sink; this module
//! only computes it.

use vstd::prelude::*;

use crate::kinds::StreamKind;
use crate::messages::IncomingMessage;

verus! {

/// The base58 text encoding of a byte string, under the standard
/// alphabet. The encoding is a function of the bytes alone; its digits
/// are pinned only by the encoder relied upon below.
pub uninterp spec fn base58_of(bytes: Seq<u8>) -> Seq<char>;

/// Relies on `bs58::encode(..).into_string()`: the base58 text of the
/// given bytes, under the crate's default (Bitcoin) alphabet, depending
/// on the bytes alone; an empty input encodes to the empty string.
#[verifier::external_body]
pub(crate) fn encode_base58(bytes: &[u8]) -> (r: String)
    ensures
        r@ == base58_of(bytes@),
        bytes@.len() == 0 ==> r@.len() == 0,
{
    bs58::encode(bytes).into_string()
}

/// Copies a byte vector.
fn copy_bytes(src: &Vec<u8>) -> (r: Vec<u8>)
    ensures
        r@ == src@,
{
    let mut r: Vec<u8> = Vec::new();
    let mut i: usize = 0;
    while i < src.len()
        invariant
            i <= src.len(),
            r@ == src@.subrange(0, i as int),
        decreases src.len() - i,
    {
        let b: u8 = src[i];
        r.push(b);
        i = i + 1;
        proof {
            assert(r@ =~= src@.subrange(0, i as int));
        }
    }
    proof {
        assert(src@.subrange(0, src.len() as int) =~= src@);
    }
    r
}

/// The kind-specific fields of one rendered record, address fields
/// already in text form.
#[derive(Debug, PartialEq, Eq)]
pub enum PayloadReport {
    Trade { program: Option<String>, market: Option<String> },
    Order { program: Option<String> },
    Pool { program: Option<String> },
    Transaction { signature: Option<Vec<u8>> },
    Transfer { sender: Option<String>, receiver: Option<String> },
    Balance { token: Option<String> },
}

/// One rendered record, emitted per received message.
#[derive(Debug, PartialEq, Eq)]
pub struct RenderedRecord {
    pub block_slot: Option<u64>,
    pub payload: PayloadReport,
}

/// The slot number of a message's block context, if present.
pub open spec fn slot_of(m: IncomingMessage) -> Option<u64> {
    match m.block {
        Option::None => Option::None,
        Option::Some(b) => Option::Some(b.slot),
    }
}

/// The text of the program address of a trade payload, if present.
pub open spec fn trade_program_of(m: IncomingMessage) -> Option<Seq<char>> {
    match m.trade {
        Option::None => Option::None,
        Option::Some(t) => match t.dex {
            Option::None => Option::None,
            Option::Some(d) => Option::Some(base58_of(d.program_address@)),
        },
    }
}

/// The text of the market address of a trade payload, if present.
pub open spec fn trade_market_of(m: IncomingMessage) -> Option<Seq<char>> {
    match m.trade {
        Option::None => Option::None,
        Option::Some(t) => match t.market {
            Option::None => Option::None,
            Option::Some(mk) => Option::Some(base58_of(mk.market_address@)),
        },
    }
}

/// The text of the program address of an order payload, if present.
pub open spec fn order_program_of(m: IncomingMessage) -> Option<Seq<char>> {
    match m.order {
        Option::None => Option::None,
        Option::Some(o) => match o.dex {
            Option::None => Option::None,
            Option::Some(d) => Option::Some(base58_of(d.program_address@)),
        },
    }
}

/// The text of the program address of a pool payload, if present.
pub open spec fn pool_program_of(m: IncomingMessage) -> Option<Seq<char>> {
    match m.pool_event {
        Option::None => Option::None,
        Option::Some(p) => match p.dex {
            Option::None => Option::None,
            Option::Some(d) => Option::Some(base58_of(d.program_address@)),
        },
    }
}

/// The signature bytes of a message's transaction context, if present.
pub open spec fn signature_of(m: IncomingMessage) -> Option<Seq<u8>> {
    match m.transaction {
        Option::None => Option::None,
        Option::Some(t) => Option::Some(t.signature@),
    }
}

/// The text of the sender address of a transfer payload, if present.
pub open spec fn transfer_sender_of(m: IncomingMessage) -> Option<Seq<char>> {
    match m.transfer {
        Option::None => Option::None,
        Option::Some(t) => match t.sender {
            Option::None => Option::None,
            Option::Some(p) => Option::Some(base58_of(p.address@)),
        },
    }
}

/// The text of the receiver address of a transfer payload, if present.
pub open spec fn transfer_receiver_of(m: IncomingMessage) -> Option<Seq<char>> {
    match m.transfer {
        Option::None => Option::None,
        Option::Some(t) => match t.receiver {
            Option::None => Option::None,
            Option::Some(p) => Option::Some(base58_of(p.address@)),
        },
    }
}

/// The text of the token mint address of a balance-update payload, if
/// present.
pub open spec fn balance_token_of(m: IncomingMessage) -> Option<Seq<char>> {
    match m.balance_update {
        Option::None => Option::None,
        Option::Some(b) => match b.currency {
            Option::None => Option::None,
            Option::Some(c) => Option::Some(base58_of(c.mint_address@)),
        },
    }
}

/// The text contents of an optional rendered string.
pub open spec fn opt_text(o: Option<String>) -> Option<Seq<char>> {
    match o {
        Option::None => Option::None,
        Option::Some(s) => Option::Some(s@),
    }
}

/// The contents of an optional byte field.
pub open spec fn opt_bytes(o: Option<Vec<u8>>) -> Option<Seq<u8>> {
    match o {
        Option::None => Option::None,
        Option::Some(v) => Option::Some(v@),
    }
}

/// The record owed for one message under one stream kind: the block
/// slot if present, and exactly the payload fields of that kind, each
/// address field carried as its base58 text.
pub open spec fn is_render_of(kind: StreamKind, m: IncomingMessage, r: RenderedRecord) -> bool {
    &&& r.block_slot == slot_of(m)
    &&& match kind {
        StreamKind::DexTrades => {
            &&& r.payload matches PayloadReport::Trade { program, market }
            &&& opt_text(program) == trade_program_of(m)
            &&& opt_text(market) == trade_market_of(m)
        },
        StreamKind::DexOrders => {
            &&& r.payload matches PayloadReport::Order { program }
            &&& opt_text(program) == order_program_of(m)
        },
        StreamKind::DexPools => {
            &&& r.payload matches PayloadReport::Pool { program }
            &&& opt_text(program) == pool_program_of(m)
        },
        StreamKind::Transactions => {
            &&& r.payload matches PayloadReport::Transaction { signature }
            &&& opt_bytes(signature) == signature_of(m)
        },
        StreamKind::Transfers => {
            &&& r.payload matches PayloadReport::Transfer { sender, receiver }
            &&& opt_text(sender) == transfer_sender_of(m)
            &&& opt_text(receiver) == transfer_receiver_of(m)
        },
        StreamKind::Balances => {
            &&& r.payload matches PayloadReport::Balance { token }
            &&& opt_text(token) == balance_token_of(m)
        },
    }
}

/// Extracts the block slot of a message, if present.
fn extract_slot(m: &IncomingMessage) -> (r: Option<u64>)
    ensures
        r == slot_of(*m),
{
    match &m.block {
        Option::None => Option::None,
        Option::Some(b) => Option::Some(b.slot),
    }
}

/// Renders one incoming message for the given stream kind: block slot,
/// and the kind's payload fields with binary addresses in base58 text.
pub fn render_message(kind: &StreamKind, m: &IncomingMessage) -> (r: RenderedRecord)
    ensures
        is_render_of(*kind, *m, r),
{
    let block_slot = extract_slot(m);
    let payload = match kind {
        StreamKind::DexTrades => {
            let (program, market) = match &m.trade {
                Option::None => (Option::None, Option::None),
                Option::Some(t) => {
                    let program = match &t.dex {
                        Option::None => Option::None,
                        Option::Some(d) => Option::Some(
                            encode_base58(d.program_address.as_slice()),
                        ),
                    };
                    let market = match &t.market {
                        Option::None => Option::None,
                        Option::Some(mk) => Option::Some(
                            encode_base58(mk.market_address.as_slice()),
                        ),
                    };
                    (program, market)
                },
            };
            PayloadReport::Trade { program, market }
        },
        StreamKind::DexOrders => {
            let program = match &m.order {
                Option::None => Option::None,
                Option::Some(o) => match &o.dex {
                    Option::None => Option::None,
                    Option::Some(d) => Option::Some(encode_base58(d.program_address.as_slice())),
                },
            };
            PayloadReport::Order { program }
        },
        StreamKind::DexPools => {
            let program = match &m.pool_event {
                Option::None => Option::None,
                Option::Some(p) => match &p.dex {
                    Option::None => Option::None,
                    Option::Some(d) => Option::Some(encode_base58(d.program_address.as_slice())),
                },
            };
            PayloadReport::Pool { program }
        },
        StreamKind::Transactions => {
            let signature = match &m.transaction {
                Option::None => Option::None,
                Option::Some(t) => Option::Some(copy_bytes(&t.signature)),
            };
            PayloadReport::Transaction { signature }
        },
        StreamKind::Transfers => {
            let (sender, receiver) = match &m.transfer {
                Option::None => (Option::None, Option::None),
                Option::Some(t) => {
                    let sender = match &t.sender {
                        Option::None => Option::None,
                        Option::Some(p) => Option::Some(encode_base58(p.address.as_slice())),
                    };
                    let receiver = match &t.receiver {
                        Option::None => Option::None,
                        Option::Some(p) => Option::Some(encode_base58(p.address.as_slice())),
                    };
                    (sender, receiver)
                },
            };
            PayloadReport::Transfer { sender, receiver }
        },
        StreamKind::Balances => {
            let token = match &m.balance_update {
                Option::None => Option::None,
                Option::Some(b) => match &b.currency {
                    Option::None => Option::None,
                    Option::Some(c) => Option::Some(encode_base58(c.mint_address.as_slice())),
                },
            };
            PayloadReport::Balance { token }
        },
    };
    RenderedRecord { block_slot, payload }
}

} // verus!
