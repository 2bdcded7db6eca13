use cosmwasm_std::MemoryStorage;
use multi_test::app::{no_init, App};
use multi_test::block::{next_block, BlockInfo};
use multi_test::executor::AppResponse;
use multi_test::module::{AcceptingModule, FailingModule};
use multi_test::router::{
    ContractResult, CosmosMsg, QueryRequest, Router, StargateMsg, StargateQuery, SudoMsg, SystemError, SystemResult,
    WasmSudo,
};
use multi_test::storage::KvStore;
use multi_test::wasm::CodeRegistryWasm;

type Accepting = AcceptingModule<u8, u8, u8>;
type Failing = FailingModule<u8, u8, u8>;
type Wasm = CodeRegistryWasm<String, u8, u8>;
type Stargate = AcceptingModule<StargateMsg, StargateQuery, u8>;

type TestApp = App<Accepting, (), MemoryStorage, Failing, Wasm, Accepting, Accepting, Failing, Failing, Stargate>;
type Msg = CosmosMsg<u8, u8, u8, u8, u8, u8, u8>;
type Query = QueryRequest<u8, u8, u8, u8, u8>;

fn genesis() -> BlockInfo {
    BlockInfo { height: 12_345, time: 1_571_797_419_879_305_533, chain_id: "cosmos-testnet-14002".to_string() }
}

fn test_app() -> TestApp {
    let router = Router::new(
        Accepting::new(),
        Failing::new(),
        Wasm::new(),
        Accepting::new(),
        Accepting::new(),
        Failing::new(),
        Failing::new(),
        Stargate::new(),
    );
    let mut storage = MemoryStorage::new();
    KvStore::set(&mut storage, b"balance", b"100");
    App::from_parts(router, (), storage, genesis())
}

fn stored(app: &TestApp, key: &[u8]) -> Option<Vec<u8>> {
    KvStore::get(app.storage(), key)
}

fn is_empty_response(r: &AppResponse) -> bool {
    r.events.is_empty() && r.data.is_none()
}

#[test]
fn block_info_returns_the_current_block() {
    let app = test_app();
    let b = app.block_info();
    assert_eq!((b.height, b.time, b.chain_id.as_str()), (12_345, 1_571_797_419_879_305_533, "cosmos-testnet-14002"));
}

#[test]
fn set_block_then_block_info_gives_it_back() {
    let mut app = test_app();
    app.set_block(BlockInfo { height: 1, time: 2, chain_id: "other".to_string() });
    let b = app.block_info();
    assert_eq!((b.height, b.time, b.chain_id.as_str()), (1, 2, "other"));
    assert_eq!(stored(&app, b"balance"), Some(b"100".to_vec()));
}

#[test]
fn update_block_applies_the_action() {
    let mut app = test_app();
    app.update_block(|b: BlockInfo| {
        let mut b = b;
        next_block(&mut b);
        b
    });
    let b = app.block_info();
    assert_eq!(b.height, 12_346);
    assert_eq!(b.time, 1_571_797_424_879_305_533);
}

#[test]
fn execute_routes_to_the_module_of_the_message() {
    let mut app = test_app();
    let bank: Msg = CosmosMsg::Bank(1);
    assert!(is_empty_response(&app.execute("sender".to_string(), bank).unwrap()));
    let staking: Msg = CosmosMsg::Staking(1);
    assert!(app.execute("sender".to_string(), staking).is_ok());
    let distribution: Msg = CosmosMsg::Distribution(1);
    assert!(app.execute("sender".to_string(), distribution).is_ok());
    let custom: Msg = CosmosMsg::Custom(1);
    assert_eq!(app.execute("sender".to_string(), custom).unwrap_err(), "Unexpected exec msg");
    let ibc: Msg = CosmosMsg::Ibc(1);
    assert_eq!(app.execute("sender".to_string(), ibc).unwrap_err(), "Unexpected exec msg");
    let wasm: Msg = CosmosMsg::Wasm(1);
    assert_eq!(app.execute("sender".to_string(), wasm).unwrap_err(), "Unsupported wasm message");
    let stargate: Msg = CosmosMsg::Stargate { type_url: "/a.b".to_string(), value: vec![1, 2] };
    assert!(app.execute("sender".to_string(), stargate).is_ok());
}

#[test]
fn execute_refuses_an_unsupported_message() {
    let mut app = test_app();
    let msg: Msg = CosmosMsg::Unsupported { description: "Any(AnyMsg { type_url: \"/x\" })".to_string() };
    assert_eq!(
        app.execute("sender".to_string(), msg).unwrap_err(),
        "Cannot execute Any(AnyMsg { type_url: \"/x\" })"
    );
    assert_eq!(stored(&app, b"balance"), Some(b"100".to_vec()));
}

#[test]
fn execute_multi_returns_one_response_per_message() {
    let mut app = test_app();
    let msgs: Vec<Msg> = vec![CosmosMsg::Bank(1), CosmosMsg::Staking(2), CosmosMsg::Bank(3)];
    let responses = app.execute_multi("sender".to_string(), msgs).unwrap();
    assert_eq!(responses.len(), 3);
    assert!(responses.iter().all(is_empty_response));
}

#[test]
fn execute_multi_of_nothing_succeeds_with_nothing() {
    let mut app = test_app();
    let responses = app.execute_multi("sender".to_string(), Vec::<Msg>::new()).unwrap();
    assert!(responses.is_empty());
}

#[test]
fn execute_multi_fails_at_the_first_failing_message() {
    let mut app = test_app();
    let msgs: Vec<Msg> = vec![
        CosmosMsg::Bank(1),
        CosmosMsg::Gov(2),
        CosmosMsg::Unsupported { description: "later".to_string() },
    ];
    assert_eq!(app.execute_multi("sender".to_string(), msgs).unwrap_err(), "Unexpected exec msg");
    assert_eq!(stored(&app, b"balance"), Some(b"100".to_vec()));
}

#[test]
fn sudo_routes_to_the_module_of_the_action() {
    let mut app = test_app();
    let bank: SudoMsg<u8, u8> = SudoMsg::from_bank(1);
    assert!(app.sudo(bank).is_ok());
    let staking: SudoMsg<u8, u8> = SudoMsg::from_staking(1);
    assert!(app.sudo(staking).is_ok());
    let wasm: SudoMsg<u8, u8> = SudoMsg::from(WasmSudo { contract_addr: "contract".to_string(), msg: b"{}".to_vec() });
    assert_eq!(app.sudo(wasm).unwrap_err(), "Unsupported wasm sudo");
}

#[test]
fn wasm_sudo_hands_back_a_serialization_error() {
    let mut app = test_app();
    let res = app.wasm_sudo("contract".to_string(), Err("cannot serialize".to_string()));
    assert_eq!(res.unwrap_err(), "cannot serialize");
    let res = app.wasm_sudo("contract".to_string(), Ok(b"{}".to_vec()));
    assert_eq!(res.unwrap_err(), "Unsupported wasm sudo");
    assert_eq!(stored(&app, b"balance"), Some(b"100".to_vec()));
}

#[test]
fn raw_query_reports_a_parse_error() {
    let app = test_app();
    let res = app.raw_query(b"{not json", Err::<Query, String>("expected value".to_string()));
    match res {
        SystemResult::Failure(SystemError::InvalidRequest { error, request }) => {
            assert_eq!(error, "Parsing query request: expected value");
            assert_eq!(request, b"{not json".to_vec());
        },
        _ => panic!("a parse error is a system error"),
    }
}

#[test]
fn raw_query_answers_with_the_module() {
    let app = test_app();
    let bank: Query = QueryRequest::Bank(1);
    match app.raw_query(b"{}", Ok(bank)) {
        SystemResult::Success(ContractResult::Success(data)) => assert!(data.is_empty()),
        _ => panic!("the bank module accepts every query"),
    }
    let custom: Query = QueryRequest::Custom(1);
    match app.raw_query(b"{}", Ok(custom)) {
        SystemResult::Success(ContractResult::Failure(e)) => assert_eq!(e, "Unexpected custom query"),
        _ => panic!("the custom module refuses every query"),
    }
    let stargate: Query = QueryRequest::Stargate { path: "/p".to_string(), data: vec![] };
    assert!(matches!(app.raw_query(b"{}", Ok(stargate)), SystemResult::Success(ContractResult::Success(_))));
}

#[test]
fn store_code_gives_out_consecutive_ids() {
    let mut app = test_app();
    assert_eq!(app.store_code("echo".to_string()), 1);
    assert_eq!(app.store_code_with_creator("alice".to_string(), "counter".to_string()), 2);
    let wasm = &app.router().wasm;
    assert_eq!(wasm.code_count(), 2);
    assert_eq!(wasm.code_data(1).unwrap().creator, "code-creator");
    assert_eq!(wasm.code_data(2).unwrap().creator, "alice");
}

#[test]
fn duplicate_code_makes_a_new_id() {
    let mut app = test_app();
    let code_id = app.store_code("echo".to_string());
    let copy = app.duplicate_code(code_id).unwrap();
    assert_ne!(code_id, copy);
    assert_eq!(copy, 2);
    let wasm = &app.router().wasm;
    assert_eq!(wasm.code_data(copy).unwrap().source_id, wasm.code_data(code_id).unwrap().source_id);
    assert_eq!(app.duplicate_code(0).unwrap_err(), "code id: invalid");
    assert_eq!(app.duplicate_code(100).unwrap_err(), "code id 100: no such code");
}

#[test]
fn contract_data_and_dump_of_an_unknown_contract() {
    let app = test_app();
    assert_eq!(app.contract_data(&"contract".to_string()).err().unwrap(), "no such contract: contract");
    assert!(app.dump_wasm_raw(&"contract".to_string()).is_empty());
}

#[test]
fn storage_mut_writes_reach_the_chain_state() {
    let mut app = test_app();
    KvStore::set(app.storage_mut(), b"balance", b"7");
    assert_eq!(stored(&app, b"balance"), Some(b"7".to_vec()));
}

#[test]
fn read_module_sees_router_and_storage() {
    let app = test_app();
    let count = app.read_module(|router: &Router<Accepting, Failing, Wasm, Accepting, Accepting, Failing, Failing, Stargate>, _api: &(), storage: &MemoryStorage| {
        (router.wasm.code_count(), KvStore::get(storage, b"balance"))
    });
    assert_eq!(count, (0, Some(b"100".to_vec())));
}

#[test]
fn init_modules_can_change_the_router() {
    let mut app = test_app();
    let id = app.init_modules(|router: &mut Router<Accepting, Failing, Wasm, Accepting, Accepting, Failing, Failing, Stargate>, _api: &(), _storage: &mut MemoryStorage| {
        router.wasm.code_count()
    });
    assert_eq!(id, 0);
    let mut router = Router::new(
        Accepting::new(),
        Failing::new(),
        Wasm::new(),
        Accepting::new(),
        Accepting::new(),
        Failing::new(),
        Failing::new(),
        Stargate::new(),
    );
    let mut storage = MemoryStorage::new();
    no_init(&mut router, &(), &mut storage);
    assert_eq!(KvStore::get(&storage, b"balance"), None);
}

#[test]
fn execute_answers_as_a_batch_of_one() {
    let mut app = test_app();
    let single = app.execute("sender".to_string(), CosmosMsg::Bank(5)).unwrap();
    let batch = app.execute_multi("sender".to_string(), vec![CosmosMsg::Bank(5)]).unwrap();
    assert_eq!(batch.len(), 1);
    assert_eq!(single.events.len(), batch[0].events.len());
    assert_eq!(single.data, batch[0].data);
    let custom: Msg = CosmosMsg::Custom(5);
    let single_err = app.execute("sender".to_string(), custom).unwrap_err();
    let batch_err = app.execute_multi("sender".to_string(), vec![CosmosMsg::Custom(5)]).unwrap_err();
    assert_eq!(single_err, batch_err);
}

#[test]
fn new_runs_the_init_function() {
    let router = Router::new(
        Accepting::new(),
        Failing::new(),
        Wasm::new(),
        Accepting::new(),
        Accepting::new(),
        Failing::new(),
        Failing::new(),
        Stargate::new(),
    );
    let app: TestApp = App::new(
        router,
        (),
        MemoryStorage::new(),
        genesis(),
        |router: &mut Router<Accepting, Failing, Wasm, Accepting, Accepting, Failing, Failing, Stargate>, _api: &(), storage: &mut MemoryStorage| {
            multi_test::module::Wasm::store_code(&mut router.wasm, "creator".to_string(), "code".to_string());
            KvStore::set(storage, b"init", b"done");
        },
    );
    assert_eq!(app.router().wasm.code_count(), 1);
    assert_eq!(stored(&app, b"init"), Some(b"done".to_vec()));
    assert_eq!(app.block_info().height, 12_345);
}

#[test]
fn try_set_block_and_try_update_block_succeed_with_an_empty_queue() {
    let mut app = test_app();
    assert!(app.try_set_block(BlockInfo { height: 9, time: 10, chain_id: "c".to_string() }).is_ok());
    assert_eq!(app.block_info().height, 9);
    assert!(app
        .try_update_block(|b: BlockInfo| {
            let mut b = b;
            next_block(&mut b);
            b
        })
        .is_ok());
    let b = app.block_info();
    assert_eq!((b.height, b.time), (10, 5_000_000_010));
}

#[test]
fn store_code_ids_are_fresh() {
    let mut app = test_app();
    let mut ids = Vec::new();
    for i in 0..5 {
        let id = if i % 2 == 0 { app.store_code("c".to_string()) } else { app.duplicate_code(1).unwrap() };
        assert_ne!(id, 0);
        assert!(!ids.contains(&id));
        assert_eq!(id, ids.len() as u64 + 1);
        ids.push(id);
    }
}

#[test]
fn mock_router_default_is_new() {
    let _a: multi_test::router::MockRouter<multi_test::router::Empty, multi_test::router::Empty> = Default::default();
    let _b: multi_test::router::MockRouter<multi_test::router::Empty, multi_test::router::Empty> = multi_test::router::MockRouter::new();
}
