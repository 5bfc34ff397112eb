use corecast_client::config::Config;
use corecast_client::config::FiltersConfig;
use corecast_client::config::ServerConfig;
use corecast_client::config::StreamConfig;
use corecast_client::errors::RunError;
use corecast_client::kinds::StreamKind;
use corecast_client::messages::BalanceUpdateEvent;
use corecast_client::messages::BlockContext;
use corecast_client::messages::Currency;
use corecast_client::messages::DexInfo;
use corecast_client::messages::IncomingMessage;
use corecast_client::messages::MarketInfo;
use corecast_client::messages::TradeEvent;
use corecast_client::messages::TransactionContext;
use corecast_client::messages::TransferEvent;
use corecast_client::messages::TransferParty;
use corecast_client::render::PayloadReport;
use corecast_client::render::render_message;
use corecast_client::run::run_recorded;
use corecast_client::run::run_result;
use corecast_client::stream::ConsumeReport;
use corecast_client::stream::StepDecision;
use corecast_client::stream::StreamEvent;
use corecast_client::stream::StreamOutcome;
use corecast_client::stream::TerminationPolicy;
use corecast_client::stream::consume_events;
use corecast_client::stream::consume_step;

fn bare_message(slot: u64) -> IncomingMessage {
    IncomingMessage {
        block: Some(BlockContext { slot }),
        transaction: None,
        trade: None,
        order: None,
        pool_event: None,
        transfer: None,
        balance_update: None,
    }
}

fn slots(report: &ConsumeReport) -> Vec<Option<u64>> {
    report.rendered.iter().map(|r| r.block_slot).collect()
}

#[test]
fn bounded_renders_exactly_first_of_five() {
    let events: Vec<StreamEvent> = (1..=5u64)
        .map(|slot| StreamEvent::Item(bare_message(slot)))
        .collect();
    let report = consume_events(&StreamKind::DexTrades, &TerminationPolicy::Bounded, &events);
    assert_eq!(report.pulls, 1);
    assert_eq!(slots(&report), vec![Some(1)]);
    assert_eq!(report.outcome, StreamOutcome::Completed);
}

#[test]
fn bounded_step_stops_after_first_message() {
    let decision = consume_step(
        &StreamKind::DexTrades,
        &TerminationPolicy::Bounded,
        StreamEvent::Item(bare_message(1)),
    );
    match decision {
        StepDecision::Emit { stop, .. } => assert!(stop),
        other => panic!("expected an emit decision, got {:?}", other),
    }
}

#[test]
fn unbounded_renders_all_in_arrival_order() {
    let mut events: Vec<StreamEvent> = (10..17u64)
        .map(|slot| StreamEvent::Item(bare_message(slot)))
        .collect();
    events.push(StreamEvent::End);
    let report = consume_events(&StreamKind::Transactions, &TerminationPolicy::Unbounded, &events);
    assert_eq!(report.pulls, 8);
    assert_eq!(
        slots(&report),
        (10..17u64).map(Some).collect::<Vec<_>>()
    );
    assert_eq!(report.outcome, StreamOutcome::Completed);
    assert!(run_result(&report).is_ok());
}

#[test]
fn midstream_failure_keeps_rendered_prefix() {
    let events = vec![
        StreamEvent::Item(bare_message(1)),
        StreamEvent::Item(bare_message(2)),
        StreamEvent::Failed(String::from("connection reset")),
        StreamEvent::Item(bare_message(3)),
    ];
    let report = consume_events(&StreamKind::Transfers, &TerminationPolicy::Unbounded, &events);
    assert_eq!(report.pulls, 3);
    assert_eq!(slots(&report), vec![Some(1), Some(2)]);
    assert_eq!(
        report.outcome,
        StreamOutcome::Failed(String::from("connection reset"))
    );
    match run_result(&report) {
        Err(RunError::Stream { cause }) => assert_eq!(cause, "connection reset"),
        other => panic!("expected a stream error, got {:?}", other),
    }
}

#[test]
fn empty_stream_completes_without_rendering() {
    let events: Vec<StreamEvent> = vec![StreamEvent::End];
    let report = consume_events(&StreamKind::Balances, &TerminationPolicy::Unbounded, &events);
    assert_eq!(report.pulls, 1);
    assert!(report.rendered.is_empty());
    assert_eq!(report.outcome, StreamOutcome::Completed);
}

#[test]
fn trade_addresses_render_as_base58_text() {
    let mut message = bare_message(42);
    message.trade = Some(TradeEvent {
        dex: Some(DexInfo { program_address: vec![0, 0] }),
        market: Some(MarketInfo { market_address: vec![1] }),
    });
    let record = render_message(&StreamKind::DexTrades, &message);
    assert_eq!(record.block_slot, Some(42));
    assert_eq!(
        record.payload,
        PayloadReport::Trade {
            program: Some(String::from("11")),
            market: Some(String::from("2")),
        }
    );
}

#[test]
fn rendering_matches_reference_encoder() {
    let bytes: Vec<u8> = vec![0x04, 0x30, 0x5e, 0x2b, 0x24, 0x73, 0xf0, 0x58];
    let mut message = bare_message(1);
    message.balance_update = Some(BalanceUpdateEvent {
        currency: Some(Currency { mint_address: bytes.clone() }),
    });
    let record = render_message(&StreamKind::Balances, &message);
    assert_eq!(
        record.payload,
        PayloadReport::Balance { token: Some(bs58::encode(&bytes).into_string()) }
    );
    assert_eq!(
        record.payload,
        PayloadReport::Balance { token: Some(String::from("he11owor1d")) }
    );
}

#[test]
fn empty_address_renders_as_empty_text() {
    let mut message = bare_message(1);
    message.transfer = Some(TransferEvent {
        sender: Some(TransferParty { address: Vec::new() }),
        receiver: None,
    });
    let record = render_message(&StreamKind::Transfers, &message);
    assert_eq!(
        record.payload,
        PayloadReport::Transfer { sender: Some(String::new()), receiver: None }
    );
}

#[test]
fn transaction_signature_passes_through() {
    let mut message = bare_message(9);
    message.transaction = Some(TransactionContext { signature: vec![1, 2, 3] });
    message.block = None;
    let record = render_message(&StreamKind::Transactions, &message);
    assert_eq!(record.block_slot, None);
    assert_eq!(
        record.payload,
        PayloadReport::Transaction { signature: Some(vec![1, 2, 3]) }
    );
}

#[test]
fn run_recorded_dispatches_then_consumes() {
    let config = Config {
        server: ServerConfig {
            address: String::from("localhost:50051"),
            authorization: String::new(),
            insecure: true,
        },
        stream: StreamConfig { stream_type: String::from("balances") },
        filters: FiltersConfig {
            programs: None,
            pools: None,
            tokens: None,
            traders: None,
            senders: None,
            receivers: None,
            addresses: None,
            signers: None,
        },
    };
    let events = vec![StreamEvent::Item(bare_message(5)), StreamEvent::End];
    let report = run_recorded(&config, &TerminationPolicy::Unbounded, &events).unwrap();
    assert_eq!(slots(&report), vec![Some(5)]);
    assert!(matches!(
        report.rendered[0].payload,
        PayloadReport::Balance { token: None }
    ));
}

#[test]
fn run_recorded_rejects_unknown_kind_before_any_pull() {
    let config = Config {
        server: ServerConfig {
            address: String::from("localhost:50051"),
            authorization: String::new(),
            insecure: true,
        },
        stream: StreamConfig { stream_type: String::from("bogus") },
        filters: FiltersConfig {
            programs: None,
            pools: None,
            tokens: None,
            traders: None,
            senders: None,
            receivers: None,
            addresses: None,
            signers: None,
        },
    };
    let events = vec![StreamEvent::Item(bare_message(5))];
    match run_recorded(&config, &TerminationPolicy::Unbounded, &events) {
        Err(RunError::Configuration { .. }) => {}
        other => panic!("expected a configuration error, got {:?}", other),
    }
}
