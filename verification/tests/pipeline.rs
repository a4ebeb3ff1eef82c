use write_behind::command::DatabaseQuery;
use write_behind::get_buffer_interval;
use write_behind::model::{Currency, InstrumentAny, InstrumentId, InstrumentVariant};
use write_behind::queue::{CommandQueue, EnqueueResult, ReceiveOutcome};
use write_behind::store::{drain_buffer, CacheStore};
use write_behind::worker::{PersistenceWorker, WorkerAction};

fn usd() -> Currency {
    Currency::new("USD".to_string(), 2, "United States dollar".to_string())
}

#[test]
fn default_buffer_interval_is_zero() {
    assert_eq!(get_buffer_interval(), 0);
}

#[test]
fn scenario_a_last_write_wins_after_drain() {
    let mut queue = CommandQueue::with_default_capacity();
    assert!(matches!(queue.add("A".to_string(), vec![1, 2, 3]), EnqueueResult::Accepted));
    assert!(matches!(queue.add("A".to_string(), vec![4, 5, 6]), EnqueueResult::Accepted));
    queue.close();

    let mut worker = PersistenceWorker::new(get_buffer_interval(), 0);
    let mut store = CacheStore::new();
    worker.run_until_closed(&mut queue, &mut store, 0);

    let entries = store.load();
    assert_eq!(entries.len(), 1);
    assert_eq!(entries[0].0, "A".to_string());
    assert_eq!(entries[0].1, vec![4, 5, 6]);
}

#[test]
fn scenario_b_three_variants_reconstructed() {
    let mut queue = CommandQueue::with_default_capacity();
    let perp = InstrumentAny::CryptoPerpetual(InstrumentId::new(
        "ETHUSDT-PERP.BINANCE".to_string(),
    ));
    let equity = InstrumentAny::Equity(InstrumentId::new("AAPL.XNAS".to_string()));
    let pair = InstrumentAny::CurrencyPair(InstrumentId::new("EUR/USD.SIM".to_string()));

    // Two producers' submissions arrive interleaved on the one queue.
    assert!(matches!(queue.add_instrument(perp.clone()), EnqueueResult::Accepted));
    assert!(matches!(queue.add_instrument(equity.clone()), EnqueueResult::Accepted));
    assert!(matches!(queue.add_instrument(pair.clone()), EnqueueResult::Accepted));
    queue.close();

    let mut worker = PersistenceWorker::new(0, 0);
    let mut store = CacheStore::new();
    worker.run_until_closed(&mut queue, &mut store, 0);

    let instruments = store.load_instruments();
    assert_eq!(instruments.len(), 3);
    assert_eq!(
        store.load_instrument(&InstrumentId::new("ETHUSDT-PERP.BINANCE".to_string())),
        Some(perp)
    );
    assert_eq!(
        store.load_instrument(&InstrumentId::new("AAPL.XNAS".to_string())),
        Some(equity)
    );
    assert_eq!(
        store.load_instrument(&InstrumentId::new("EUR/USD.SIM".to_string())),
        Some(pair)
    );
}

#[test]
fn backpressure_full_hands_command_back() {
    let mut queue = CommandQueue::new(2);
    assert!(matches!(queue.add("k1".to_string(), vec![1]), EnqueueResult::Accepted));
    assert!(matches!(queue.add("k2".to_string(), vec![2]), EnqueueResult::Accepted));
    match queue.add("k3".to_string(), vec![3]) {
        EnqueueResult::Full(DatabaseQuery::Add(key, value)) => {
            assert_eq!(key, "k3".to_string());
            assert_eq!(value, vec![3]);
        },
        _ => panic!("a full queue must hand the command back"),
    }
    // The admitted commands are still there, in arrival order.
    match queue.try_recv() {
        ReceiveOutcome::Received(DatabaseQuery::Add(key, _)) => assert_eq!(key, "k1".to_string()),
        _ => panic!("expected the oldest admitted command"),
    }
}

#[test]
fn enqueue_after_close_is_send_error() {
    let mut queue = CommandQueue::new(4);
    queue.close();
    match queue.add_currency(usd()) {
        EnqueueResult::Closed(DatabaseQuery::AddCurrency(c)) => assert_eq!(c, usd()),
        _ => panic!("a closed queue must surface a send error with the command"),
    }
}

#[test]
fn fifo_order_and_disconnect() {
    let mut queue = CommandQueue::new(8);
    assert!(matches!(queue.add("k1".to_string(), vec![1]), EnqueueResult::Accepted));
    assert!(matches!(queue.add("k2".to_string(), vec![2]), EnqueueResult::Accepted));
    match queue.try_recv() {
        ReceiveOutcome::Received(DatabaseQuery::Add(key, _)) => assert_eq!(key, "k1".to_string()),
        _ => panic!("expected k1 first"),
    }
    match queue.try_recv() {
        ReceiveOutcome::Received(DatabaseQuery::Add(key, _)) => assert_eq!(key, "k2".to_string()),
        _ => panic!("expected k2 second"),
    }
    assert!(matches!(queue.try_recv(), ReceiveOutcome::Empty));
    queue.close();
    assert!(matches!(queue.try_recv(), ReceiveOutcome::Disconnected));
}

#[test]
fn upsert_idempotence_currency() {
    let mut store = CacheStore::new();
    store.apply(DatabaseQuery::AddCurrency(usd()));
    let once = store.load_currencies();
    store.apply(DatabaseQuery::AddCurrency(usd()));
    let twice = store.load_currencies();
    assert_eq!(once, twice);
    assert_eq!(twice, vec![usd()]);
}

#[test]
fn upsert_idempotence_instrument() {
    let mut store = CacheStore::new();
    let fut = InstrumentAny::FuturesContract(InstrumentId::new("ESZ4.GLBX".to_string()));
    store.apply(DatabaseQuery::AddInstrument(fut.clone()));
    store.apply(DatabaseQuery::AddInstrument(fut.clone()));
    assert_eq!(store.load_instruments(), vec![fut]);
}

#[test]
fn read_after_flush_generic() {
    let mut store = CacheStore::new();
    store.apply(DatabaseQuery::Add("position".to_string(), vec![9, 9]));
    let entries = store.load();
    assert_eq!(entries, vec![("position".to_string(), vec![9, 9])]);
}

#[test]
fn read_after_flush_currency_point_read() {
    let mut store = CacheStore::new();
    store.apply(DatabaseQuery::AddCurrency(usd()));
    assert_eq!(store.load_currency("USD"), Some(usd()));
    assert_eq!(store.load_currency("EUR"), None);
}

#[test]
fn load_instrument_not_found_is_empty() {
    let store = CacheStore::new();
    assert_eq!(store.load_instrument(&InstrumentId::new("missing".to_string())), None);
}

#[test]
fn order_kept_across_flush_boundaries() {
    let c1 = DatabaseQuery::Add("A".to_string(), vec![1]);
    let c2 = DatabaseQuery::Add("B".to_string(), vec![2]);
    let c3 = DatabaseQuery::Add("A".to_string(), vec![3]);

    let mut split_store = CacheStore::new();
    let mut first = vec![c1.clone(), c2.clone()];
    drain_buffer(&mut split_store, &mut first);
    assert!(first.is_empty());
    let mut second = vec![c3.clone()];
    drain_buffer(&mut split_store, &mut second);

    let mut whole_store = CacheStore::new();
    let mut all = vec![c1, c2, c3];
    drain_buffer(&mut whole_store, &mut all);

    assert_eq!(split_store.load(), whole_store.load());
    let entries = split_store.load();
    assert!(entries.contains(&("A".to_string(), vec![3])));
    assert!(entries.contains(&("B".to_string(), vec![2])));
    assert_eq!(entries.len(), 2);
}

#[test]
fn flush_due_follows_interval() {
    let mut worker = PersistenceWorker::new(5, 10);
    assert!(!worker.flush_due(12)); // empty buffer: nothing to flush
    let action = worker.on_event(ReceiveOutcome::Received(DatabaseQuery::Add(
        "k".to_string(),
        vec![7],
    )));
    assert_eq!(action, WorkerAction::Proceed);
    assert!(!worker.flush_due(12)); // interval has not elapsed yet
    assert!(worker.flush_due(15));
    let batch = worker.take_batch(15);
    assert_eq!(batch.len(), 1);
    assert!(!worker.flush_due(100)); // buffer drained
}

#[test]
fn worker_actions_for_each_outcome() {
    let mut worker = PersistenceWorker::new(0, 0);
    assert_eq!(worker.on_event(ReceiveOutcome::Empty), WorkerAction::Pause);
    assert_eq!(worker.on_event(ReceiveOutcome::Disconnected), WorkerAction::Terminate);
    let action = worker.on_event(ReceiveOutcome::Received(DatabaseQuery::Add(
        "k".to_string(),
        vec![],
    )));
    assert_eq!(action, WorkerAction::Proceed);
}

#[test]
fn drain_on_close_flushes_everything_for_any_interval() {
    // A huge flush interval must not lose anything once the queue closes.
    let mut queue = CommandQueue::new(16);
    assert!(matches!(queue.add("x".to_string(), vec![1]), EnqueueResult::Accepted));
    assert!(matches!(queue.add_currency(usd()), EnqueueResult::Accepted));
    queue.close();

    let mut worker = PersistenceWorker::new(u64::MAX, 0);
    let mut store = CacheStore::new();
    worker.run_until_closed(&mut queue, &mut store, 0);

    assert_eq!(store.load(), vec![("x".to_string(), vec![1])]);
    assert_eq!(store.load_currencies(), vec![usd()]);
}

#[test]
fn instrument_dispatch_table_names() {
    assert_eq!(InstrumentVariant::CryptoFuture.table_name(), "CRYPTO_FUTURE");
    assert_eq!(InstrumentVariant::CryptoPerpetual.table_name(), "CRYPTO_PERPETUAL");
    assert_eq!(InstrumentVariant::CurrencyPair.table_name(), "CURRENCY_PAIR");
    assert_eq!(InstrumentVariant::Equity.table_name(), "EQUITY");
    assert_eq!(InstrumentVariant::FuturesContract.table_name(), "FUTURES_CONTRACT");
    assert_eq!(InstrumentVariant::FuturesSpread.table_name(), "FUTURES_SPREAD");
    assert_eq!(InstrumentVariant::OptionsContract.table_name(), "OPTIONS_CONTRACT");
    assert_eq!(InstrumentVariant::OptionsSpread.table_name(), "OPTIONS_SPREAD");

    let equity = InstrumentAny::Equity(InstrumentId::new("AAPL.XNAS".to_string()));
    assert_eq!(equity.variant(), InstrumentVariant::Equity);
    assert_eq!(equity.variant().table_name(), "EQUITY");
    assert_eq!(equity.id().value, "AAPL.XNAS".to_string());
}
