use vstd::prelude::*;

use crate::block::{BlockInfo, BlockView};
use crate::executor::{error_view, response_view, AppResponse, AppResponseView};
use crate::module::{Module, Staking, Wasm};
use crate::router::{raw_query_spec, ContractResult, CosmosMsg, CosmosRouter, Router, StargateMsg, StargateQuery, SystemResult};
use crate::storage::{KvStore, Store};
use crate::transactions::StorageTransaction;

verus! {

/// What a batch of messages leaves behind when they are executed one after
/// the other, starting from `store`, until one fails: the store after the
/// last message that ran, and either the responses of all messages or the
/// error of the first one that failed.
pub open spec fn run_msgs<R: CosmosRouter>(
    router: R,
    store: Store,
    block: BlockView,
    sender: Seq<char>,
    msgs: Seq<R::Msg>,
) -> (Store, Result<Seq<AppResponseView>, Seq<char>>)
    decreases msgs.len(),
{
    if msgs.len() == 0 {
        (store, Ok(Seq::empty()))
    } else {
        let (s, r) = run_msgs(router, store, block, sender, msgs.drop_last());
        match r {
            Err(e) => (s, Err(e)),
            Ok(responses) => {
                let (s2, r2) = router.execute_spec(s, block, sender, msgs.last());
                match r2 {
                    Err(e) => (s2, Err(e)),
                    Ok(response) => (s2, Ok(responses.push(response))),
                }
            },
        }
    }
}

/// The store that a batch leaves behind when it runs atomically: the store
/// after all messages if every one of them succeeded, and the untouched
/// store otherwise.
pub open spec fn committed_store<R: CosmosRouter>(
    router: R,
    store: Store,
    block: BlockView,
    sender: Seq<char>,
    msgs: Seq<R::Msg>,
) -> Store {
    let (s, r) = run_msgs(router, store, block, sender, msgs);
    if r is Ok {
        s
    } else {
        store
    }
}

/// The responses of a batch, taken by their views.
pub open spec fn responses_view(res: Result<Vec<AppResponse>, String>) -> Result<Seq<AppResponseView>, Seq<char>> {
    match res {
        Ok(v) => Ok(v@.map_values(|r: AppResponse| r@)),
        Err(e) => Err(e@),
    }
}

/// The store after one state-changing operation that runs atomically: its
/// writes stay only where it succeeded.
pub open spec fn atomic_store(before: Store, outcome: (Store, Result<AppResponseView, Seq<char>>)) -> Store {
    if outcome.1 is Ok {
        outcome.0
    } else {
        before
    }
}

/// An initialization that does nothing.
pub fn no_init<R, A, S>(router: &mut R, api: &A, storage: &mut S)
    ensures
        *final(router) == *old(router),
        *final(storage) == *old(storage),
{
}

/// A simulated blockchain: the modules of its router, an api, the storage
/// that holds the chain state, and the current block.
pub struct App<BankT, ApiT, StorageT, CustomT, WasmT, StakingT, DistrT, IbcT, GovT, StargateT> {
    router: Router<BankT, CustomT, WasmT, StakingT, DistrT, IbcT, GovT, StargateT>,
    api: ApiT,
    storage: StorageT,
    block: BlockInfo,
}

impl<BankT, ApiT, StorageT, CustomT, WasmT, StakingT, DistrT, IbcT, GovT, StargateT> App<
    BankT,
    ApiT,
    StorageT,
    CustomT,
    WasmT,
    StakingT,
    DistrT,
    IbcT,
    GovT,
    StargateT,
> {
    pub closed spec fn router_of(&self) -> Router<BankT, CustomT, WasmT, StakingT, DistrT, IbcT, GovT, StargateT> {
        self.router
    }

    pub closed spec fn api_of(&self) -> ApiT {
        self.api
    }

    pub closed spec fn storage_of(&self) -> StorageT {
        self.storage
    }

    pub closed spec fn block_of(&self) -> BlockView {
        self.block@
    }

    /// An application made of the given parts.
    pub fn from_parts(
        router: Router<BankT, CustomT, WasmT, StakingT, DistrT, IbcT, GovT, StargateT>,
        api: ApiT,
        storage: StorageT,
        block: BlockInfo,
    ) -> (res: Self)
        ensures
            res.router_of() == router,
            res.api_of() == api,
            res.storage_of() == storage,
            res.block_of() == block@,
    {
        App { router, api, storage, block }
    }

    /// The router.
    pub fn router(&self) -> (res: &Router<BankT, CustomT, WasmT, StakingT, DistrT, IbcT, GovT, StargateT>)
        ensures
            *res == self.router_of(),
    {
        &self.router
    }

    /// The api.
    pub fn api(&self) -> (res: &ApiT)
        ensures
            *res == self.api_of(),
    {
        &self.api
    }

    /// The storage.
    pub fn storage(&self) -> (res: &StorageT)
        ensures
            *res == self.storage_of(),
    {
        &self.storage
    }

    /// The storage, for changes.
    pub fn storage_mut(&mut self) -> (res: &mut StorageT)
        ensures
            *res == old(self).storage_of(),
            final(self).storage_of() == *final(res),
            final(self).router_of() == old(self).router_of(),
            final(self).api_of() == old(self).api_of(),
            final(self).block_of() == old(self).block_of(),
    {
        &mut self.storage
    }

    /// A copy of the current block information.
    pub fn block_info(&self) -> (res: BlockInfo)
        ensures
            res@ == self.block_of(),
    {
        self.block.duplicate()
    }

    /// Runs `init_fn` on the router, the api and the storage, and returns what it returns.
    pub fn init_modules<F, T>(&mut self, init_fn: F) -> (res: T) where
        F: FnOnce(&mut Router<BankT, CustomT, WasmT, StakingT, DistrT, IbcT, GovT, StargateT>, &ApiT, &mut StorageT) -> T,
        requires
            forall|r: &mut Router<BankT, CustomT, WasmT, StakingT, DistrT, IbcT, GovT, StargateT>, a: &ApiT, s: &mut StorageT| init_fn.requires((r, a, s)),
        ensures
            exists|
                r: &mut Router<BankT, CustomT, WasmT, StakingT, DistrT, IbcT, GovT, StargateT>,
                a: &ApiT,
                s: &mut StorageT,
            |
                *r == old(self).router_of() && *final(r) == final(self).router_of() && *a == old(self).api_of()
                    && *s == old(self).storage_of() && *final(s) == final(self).storage_of() && init_fn.ensures(
                    (r, a, s),
                    res,
                ),
            final(self).api_of() == old(self).api_of(),
            final(self).block_of() == old(self).block_of(),
    {
        init_fn(&mut self.router, &self.api, &mut self.storage)
    }

    /// An application made of the given parts, after `init_fn` was run on
    /// its router, api and storage (to set up modules and initial state).
    pub fn new<F>(
        router: Router<BankT, CustomT, WasmT, StakingT, DistrT, IbcT, GovT, StargateT>,
        api: ApiT,
        storage: StorageT,
        block: BlockInfo,
        init_fn: F,
    ) -> (res: Self) where
        F: FnOnce(&mut Router<BankT, CustomT, WasmT, StakingT, DistrT, IbcT, GovT, StargateT>, &ApiT, &mut StorageT),
        requires
            forall|r: &mut Router<BankT, CustomT, WasmT, StakingT, DistrT, IbcT, GovT, StargateT>, a: &ApiT, s: &mut StorageT| init_fn.requires((r, a, s)),
        ensures
            exists|
                r: &mut Router<BankT, CustomT, WasmT, StakingT, DistrT, IbcT, GovT, StargateT>,
                a: &ApiT,
                s: &mut StorageT,
            |
                *r == router && *final(r) == res.router_of() && *a == api && *s == storage && *final(s)
                    == res.storage_of() && init_fn.ensures((r, a, s), ()),
            res.api_of() == api,
            res.block_of() == block@,
    {
        let mut app = App { router, api, storage, block };
        app.init_modules(init_fn);
        app
    }

    /// Runs `query_fn` on the router, the api and the storage, and returns what it returns.
    pub fn read_module<F, T>(&self, query_fn: F) -> (res: T) where
        F: FnOnce(&Router<BankT, CustomT, WasmT, StakingT, DistrT, IbcT, GovT, StargateT>, &ApiT, &StorageT) -> T,
        requires
            query_fn.requires((&self.router_of(), &self.api_of(), &self.storage_of())),
        ensures
            query_fn.ensures((&self.router_of(), &self.api_of(), &self.storage_of()), res),
    {
        query_fn(&self.router, &self.api, &self.storage)
    }
}


impl<BankT, ApiT, StorageT, CustomT, WasmT, StakingT, DistrT, IbcT, GovT, StargateT> App<
    BankT,
    ApiT,
    StorageT,
    CustomT,
    WasmT,
    StakingT,
    DistrT,
    IbcT,
    GovT,
    StargateT,
> where
    BankT: Module,
    StorageT: KvStore,
    CustomT: Module,
    WasmT: Wasm,
    StakingT: Staking,
    DistrT: Module,
    IbcT: Module,
    GovT: Module,
    StargateT: Module<ExecT = StargateMsg, QueryT = StargateQuery>,
 {
    /// What the storage holds.
    pub open spec fn store(&self) -> Store {
        self.storage_of().kv()
    }

    /// Runs several messages from `sender` in one atomic operation: the
    /// messages run one after the other on a cache of the storage; if one of
    /// them fails, its error is returned and no change is kept, and if all
    /// succeed, all their writes are kept and their responses returned in order.
    pub fn execute_multi(
        &mut self,
        sender: String,
        msgs: Vec<<Router<BankT, CustomT, WasmT, StakingT, DistrT, IbcT, GovT, StargateT> as CosmosRouter>::Msg>,
    ) -> (res: Result<Vec<AppResponse>, String>)
        ensures
            responses_view(res) == run_msgs(old(self).router_of(), old(self).store(), old(self).block_of(), sender@, msgs@).1,
            final(self).store() == committed_store(old(self).router_of(), old(self).store(), old(self).block_of(), sender@, msgs@),
            res is Err ==> final(self).storage_of() == old(self).storage_of(),
            final(self).router_of() == old(self).router_of(),
            final(self).api_of() == old(self).api_of(),
            final(self).block_of() == old(self).block_of(),
    {
        let ghost all = msgs@;
        let ghost base = self.storage.kv();
        let mut cache = StorageTransaction::new(&self.storage);
        let mut responses: Vec<AppResponse> = Vec::new();
        let mut rest = msgs;
        let ghost mut i: int = 0;
        proof {
            assert(all.take(0) =~= Seq::<<Router<BankT, CustomT, WasmT, StakingT, DistrT, IbcT, GovT, StargateT> as CosmosRouter>::Msg>::empty());
            assert(responses@.map_values(|r: AppResponse| r@) =~= Seq::<AppResponseView>::empty());
            assert(rest@ =~= all.skip(0));
        }
        while rest.len() > 0
            invariant
                0 <= i <= all.len(),
                rest@ == all.skip(i),
                cache.base() == base,
                base == self.storage.kv(),
                base == old(self).store(),
                self.storage == old(self).storage,
                self.router == old(self).router,
                self.api == old(self).api,
                self.block == old(self).block,
                all == msgs@,
                run_msgs(self.router, base, self.block@, sender@, all.take(i)) == (
                    cache.kv(),
                    Ok::<Seq<AppResponseView>, Seq<char>>(responses@.map_values(|r: AppResponse| r@)),
                ),
            ensures
                i == all.len(),
                rest@.len() == 0,
                run_msgs(self.router, base, self.block@, sender@, all.take(i)) == (
                    cache.kv(),
                    Ok::<Seq<AppResponseView>, Seq<char>>(responses@.map_values(|r: AppResponse| r@)),
                ),
            decreases rest@.len(),
        {
            let msg = rest.remove(0);
            let ghost before = responses@.map_values(|r: AppResponse| r@);
            proof {
                assert(all.take(i + 1).drop_last() =~= all.take(i));
                assert(all.take(i + 1).last() == msg);
            }
            let result = self.router.execute(&self.api, &mut cache, &self.block, sender.clone(), msg);
            match result {
                Err(e) => {
                    proof {
                        lemma_run_msgs_error_persists(self.router, base, self.block@, sender@, all, i + 1);
                    }
                    return Err(e);
                },
                Ok(response) => {
                    responses.push(response);
                    proof {
                        assert(responses@.map_values(|r: AppResponse| r@) =~= before.push(response@));
                        assert(rest@ =~= all.skip(i + 1));
                        i = i + 1;
                    }
                },
            }
        }
        proof {
            assert(all.take(i) =~= all);
        }
        let log = cache.prepare();
        log.commit(&mut self.storage);
        Ok(responses)
    }

    /// Executes one message from `sender`: a batch of that message alone.
    pub fn execute(
        &mut self,
        sender: String,
        msg: <Router<BankT, CustomT, WasmT, StakingT, DistrT, IbcT, GovT, StargateT> as CosmosRouter>::Msg,
    ) -> (res: Result<AppResponse, String>)
        ensures
            response_view(res) == old(self).router_of().execute_spec(old(self).store(), old(self).block_of(), sender@, msg).1,
            final(self).store() == atomic_store(
                old(self).store(),
                old(self).router_of().execute_spec(old(self).store(), old(self).block_of(), sender@, msg),
            ),
            final(self).router_of() == old(self).router_of(),
            final(self).api_of() == old(self).api_of(),
            final(self).block_of() == old(self).block_of(),
    {
        let ghost router = self.router;
        let ghost store = self.store();
        let ghost block = self.block@;
        let msgs = vec![msg];
        proof {
            lemma_single_message_batch(router, store, block, sender@, msg);
            assert(msgs@ =~= seq![msg]);
        }
        let result = self.execute_multi(sender, msgs);
        match result {
            Err(e) => Err(e),
            Ok(all) => {
                let mut all = all;
                let ghost views = all@.map_values(|r: AppResponse| r@);
                proof {
                    assert(views.len() == 1);
                    assert(views[0] == all@[0]@);
                }
                let res = all.pop().unwrap();
                Ok(res)
            },
        }
    }

    /// Runs a privileged action in one atomic operation: no change is kept
    /// if it fails, and all are kept if it succeeds.
    pub fn sudo(
        &mut self,
        msg: <Router<BankT, CustomT, WasmT, StakingT, DistrT, IbcT, GovT, StargateT> as CosmosRouter>::Sudo,
    ) -> (res: Result<AppResponse, String>)
        requires
            !(msg is Custom),
        ensures
            response_view(res) == old(self).router_of().sudo_spec(old(self).store(), old(self).block_of(), msg).1,
            final(self).store() == atomic_store(
                old(self).store(),
                old(self).router_of().sudo_spec(old(self).store(), old(self).block_of(), msg),
            ),
            res is Err ==> final(self).storage_of() == old(self).storage_of(),
            final(self).router_of() == old(self).router_of(),
            final(self).api_of() == old(self).api_of(),
            final(self).block_of() == old(self).block_of(),
    {
        let mut cache = StorageTransaction::new(&self.storage);
        let result = self.router.sudo(&self.api, &mut cache, &self.block, msg);
        match result {
            Err(e) => Err(e),
            Ok(response) => {
                let log = cache.prepare();
                log.commit(&mut self.storage);
                Ok(response)
            },
        }
    }

    /// Calls the sudo entry point of the contract at `contract_addr` in one
    /// atomic operation, with `msg` the serialized message (or the text of
    /// the error that serializing it gave, which is returned unchanged).
    pub fn wasm_sudo(&mut self, contract_addr: String, msg: Result<Vec<u8>, String>) -> (res: Result<AppResponse, String>)
        ensures
            msg matches Err(e) ==> res == Err::<AppResponse, String>(e) && final(self).storage_of() == old(self).storage_of(),
            msg matches Ok(bytes) ==> {
                let outcome = old(self).router_of().wasm.sudo_spec(old(self).store(), old(self).block_of(), contract_addr@, bytes@);
                &&& response_view(res) == outcome.1
                &&& final(self).store() == atomic_store(old(self).store(), outcome)
            },
            res is Err ==> final(self).storage_of() == old(self).storage_of(),
            final(self).router_of() == old(self).router_of(),
            final(self).api_of() == old(self).api_of(),
            final(self).block_of() == old(self).block_of(),
    {
        let bytes = match msg {
            Ok(bytes) => bytes,
            Err(e) => {
                return Err(e);
            },
        };
        let mut cache = StorageTransaction::new(&self.storage);
        let result = self.router.wasm.sudo(&self.api, contract_addr, &mut cache, &self.block, bytes);
        match result {
            Err(e) => Err(e),
            Ok(response) => {
                let log = cache.prepare();
                log.commit(&mut self.storage);
                Ok(response)
            },
        }
    }

    /// Registers contract code uploaded by `creator` (as uploading wasm
    /// bytecode to a chain does), so that it can be instantiated later, and
    /// returns its code id.
    pub fn store_code_with_creator(&mut self, creator: String, code: <WasmT as Wasm>::Code) -> (res: u64)
        requires
            old(self).router_of().wasm.can_store_code(),
        ensures
            (final(self).router_of().wasm@, res) == old(self).router_of().wasm.store_code_spec(creator@, code),
            res != 0,
            !old(self).router_of().wasm.has_code(res),
            final(self).router_of().wasm.has_code(res),
            forall|id: u64| #[trigger] old(self).router_of().wasm.has_code(id) ==> final(self).router_of().wasm.has_code(id),
            final(self).router_of() == (Router { wasm: final(self).router_of().wasm, ..old(self).router_of() }),
            final(self).storage_of() == old(self).storage_of(),
            final(self).api_of() == old(self).api_of(),
            final(self).block_of() == old(self).block_of(),
    {
        self.router.wasm.store_code(creator, code)
    }

    /// Registers contract code, as [`Self::store_code_with_creator`] does,
    /// with the creator `code-creator`.
    pub fn store_code(&mut self, code: <WasmT as Wasm>::Code) -> (res: u64)
        requires
            old(self).router_of().wasm.can_store_code(),
        ensures
            (final(self).router_of().wasm@, res) == old(self).router_of().wasm.store_code_spec("code-creator"@, code),
            res != 0,
            !old(self).router_of().wasm.has_code(res),
            final(self).router_of().wasm.has_code(res),
            forall|id: u64| #[trigger] old(self).router_of().wasm.has_code(id) ==> final(self).router_of().wasm.has_code(id),
            final(self).router_of() == (Router { wasm: final(self).router_of().wasm, ..old(self).router_of() }),
            final(self).storage_of() == old(self).storage_of(),
            final(self).api_of() == old(self).api_of(),
            final(self).block_of() == old(self).block_of(),
    {
        self.store_code_with_creator(String::from_str("code-creator"), code)
    }

    /// Duplicates the contract code with id `code_id` and returns the id of the copy.
    pub fn duplicate_code(&mut self, code_id: u64) -> (res: Result<u64, String>)
        ensures
            (final(self).router_of().wasm@, error_view(res)) == old(self).router_of().wasm.duplicate_code_spec(code_id),
            res matches Ok(id) ==> {
                &&& old(self).router_of().wasm.has_code(code_id)
                &&& id != 0
                &&& !old(self).router_of().wasm.has_code(id)
                &&& final(self).router_of().wasm.has_code(id)
            },
            forall|id: u64| #[trigger] old(self).router_of().wasm.has_code(id) ==> final(self).router_of().wasm.has_code(id),
            final(self).router_of() == (Router { wasm: final(self).router_of().wasm, ..old(self).router_of() }),
            final(self).storage_of() == old(self).storage_of(),
            final(self).api_of() == old(self).api_of(),
            final(self).block_of() == old(self).block_of(),
    {
        self.router.wasm.duplicate_code(code_id)
    }

    /// The data kept about the contract at `address`.
    pub fn contract_data(&self, address: &String) -> (res: Result<<WasmT as Wasm>::ContractData, String>)
        ensures
            error_view(res) == self.router_of().wasm.contract_data_spec(self.store(), address@),
    {
        self.router.wasm.contract_data(&self.storage, address)
    }

    /// All key-value pairs held by the contract at `address`.
    pub fn dump_wasm_raw(&self, address: &String) -> (res: Vec<(Vec<u8>, Vec<u8>)>)
        ensures
            res.deep_view() == self.router_of().wasm.dump_wasm_raw_spec(self.store(), address@),
    {
        self.router.wasm.dump_wasm_raw(&self.storage, address)
    }

    /// Processes the staking queue at the block that ends and, where that
    /// succeeds, sets the current block; where it fails, returns its error and
    /// keeps the block (the store stays as the queue left it).
    pub fn try_set_block(&mut self, block: BlockInfo) -> (res: Result<(), String>)
        ensures
            ({
                let (store, outcome) = old(self).router_of().staking.process_queue_spec(old(self).store(), old(self).block_of());
                &&& final(self).store() == store
                &&& (res is Ok <==> outcome is Ok)
                &&& res matches Err(e) ==> outcome == Err::<AppResponseView, Seq<char>>(e@)
                &&& final(self).block_of() == (if outcome is Ok { block@ } else { old(self).block_of() })
            }),
            final(self).router_of() == old(self).router_of(),
            final(self).api_of() == old(self).api_of(),
    {
        let processed = self.router.staking.process_queue(&self.api, &mut self.storage, &self.block);
        match processed {
            Ok(_) => {
                self.block = block;
                Ok(())
            },
            Err(e) => Err(e),
        }
    }

    /// Processes the staking queue at the block that ends and, where that
    /// succeeds, updates the current block with `action`; where it fails,
    /// returns its error and keeps the block (the store stays as the queue left it).
    pub fn try_update_block<F: Fn(BlockInfo) -> BlockInfo>(&mut self, action: F) -> (res: Result<(), String>)
        requires
            forall|b: BlockInfo| b@ == old(self).block_of() ==> action.requires((b,)),
        ensures
            ({
                let (store, outcome) = old(self).router_of().staking.process_queue_spec(old(self).store(), old(self).block_of());
                &&& final(self).store() == store
                &&& (res is Ok <==> outcome is Ok)
                &&& res matches Err(e) ==> outcome == Err::<AppResponseView, Seq<char>>(e@)
                &&& outcome is Err ==> final(self).block_of() == old(self).block_of()
                &&& outcome is Ok ==> exists|b: BlockInfo, after: BlockInfo|
                    b@ == old(self).block_of() && after@ == final(self).block_of() && action.ensures((b,), after)
            }),
            final(self).router_of() == old(self).router_of(),
            final(self).api_of() == old(self).api_of(),
    {
        let processed = self.router.staking.process_queue(&self.api, &mut self.storage, &self.block);
        match processed {
            Ok(_) => {
                let current = self.block.duplicate();
                let after = action(current);
                self.block = after;
                Ok(())
            },
            Err(e) => Err(e),
        }
    }

    /// Sets the current block, after the staking queue was processed at the
    /// block that ends.
    pub fn set_block(&mut self, block: BlockInfo)
        requires
            old(self).router_of().staking.process_queue_spec(old(self).store(), old(self).block_of()).1 is Ok,
        ensures
            final(self).block_of() == block@,
            final(self).store() == old(self).router_of().staking.process_queue_spec(old(self).store(), old(self).block_of()).0,
            final(self).router_of() == old(self).router_of(),
            final(self).api_of() == old(self).api_of(),
    {
        let processed = self.router.staking.process_queue(&self.api, &mut self.storage, &self.block);
        match processed {
            Ok(_) => {},
            Err(_) => {
                proof {
                    assert(false);
                }
            },
        }
        self.block = block;
    }

    /// Updates the current block with `action` (such as one that advances it
    /// by [`crate::block::next_block`]), after the staking queue was processed
    /// at the block that ends.
    pub fn update_block<F: Fn(BlockInfo) -> BlockInfo>(&mut self, action: F)
        requires
            old(self).router_of().staking.process_queue_spec(old(self).store(), old(self).block_of()).1 is Ok,
            forall|b: BlockInfo| b@ == old(self).block_of() ==> action.requires((b,)),
        ensures
            exists|b: BlockInfo, after: BlockInfo|
                b@ == old(self).block_of() && after@ == final(self).block_of() && action.ensures((b,), after),
            final(self).store() == old(self).router_of().staking.process_queue_spec(old(self).store(), old(self).block_of()).0,
            final(self).router_of() == old(self).router_of(),
            final(self).api_of() == old(self).api_of(),
    {
        let processed = self.router.staking.process_queue(&self.api, &mut self.storage, &self.block);
        match processed {
            Ok(_) => {},
            Err(_) => {
                proof {
                    assert(false);
                }
            },
        }
        let current = self.block.duplicate();
        let after = action(current);
        self.block = after;
    }

    /// Answers the raw query `bin_request`, of which `parsed` is the parse
    /// (or the text of the parse error).
    pub fn raw_query(
        &self,
        bin_request: &[u8],
        parsed: Result<<Router<BankT, CustomT, WasmT, StakingT, DistrT, IbcT, GovT, StargateT> as CosmosRouter>::Query, String>,
    ) -> (res: SystemResult<ContractResult<Vec<u8>>>)
        requires
            parsed matches Ok(q) ==> !(q is Unsupported),
        ensures
            res@ == raw_query_spec(self.router_of(), self.store(), self.block_of(), bin_request@, error_view(parsed)),
    {
        self.router.querier(&self.api, &self.storage, &self.block).raw_query(bin_request, parsed)
    }
}

/// A batch of one message runs that message: its answer and store are those
/// of the message, and its only response is the message's.
pub proof fn lemma_single_message_batch<R: CosmosRouter>(router: R, store: Store, block: BlockView, sender: Seq<char>, msg: R::Msg)
    ensures
        ({
            let (s, r) = router.execute_spec(store, block, sender, msg);
            run_msgs(router, store, block, sender, seq![msg]) == (s, match r {
                Ok(response) => Ok(seq![response]),
                Err(e) => Err::<Seq<AppResponseView>, Seq<char>>(e),
            })
        }),
{
    reveal_with_fuel(run_msgs, 2);
    assert(seq![msg].drop_last() =~= Seq::<R::Msg>::empty());
    assert(seq![msg].last() == msg);
    let (s, r) = router.execute_spec(store, block, sender, msg);
    match r {
        Ok(response) => {
            assert(Seq::<AppResponseView>::empty().push(response) =~= seq![response]);
        },
        Err(_) => {},
    }
}

/// The `i`-th message of a batch ran on the store that the messages before
/// it left behind, succeeded, and its response is the `i`-th of `responses`.
pub open spec fn answered_in_order<R: CosmosRouter>(
    router: R,
    store: Store,
    block: BlockView,
    sender: Seq<char>,
    msgs: Seq<R::Msg>,
    responses: Seq<AppResponseView>,
    i: int,
) -> bool {
    let before = run_msgs(router, store, block, sender, msgs.take(i)).0;
    let step = router.execute_spec(before, block, sender, msgs[i]);
    &&& step.1 is Ok
    &&& responses[i] == step.1->Ok_0
}

/// A batch that succeeds answers each message with one response, in order:
/// the `i`-th response is what the `i`-th message answered on the store that
/// the messages before it left behind.
pub proof fn lemma_run_msgs_responses<R: CosmosRouter>(router: R, store: Store, block: BlockView, sender: Seq<char>, msgs: Seq<R::Msg>)
    requires
        run_msgs(router, store, block, sender, msgs).1 is Ok,
    ensures
        run_msgs(router, store, block, sender, msgs).1->Ok_0.len() == msgs.len(),
        forall|i: int|
            0 <= i < msgs.len() ==> #[trigger] answered_in_order(
                router,
                store,
                block,
                sender,
                msgs,
                run_msgs(router, store, block, sender, msgs).1->Ok_0,
                i,
            ),
    decreases msgs.len(),
{
    if msgs.len() > 0 {
        let prefix = msgs.drop_last();
        let (s, r) = run_msgs(router, store, block, sender, prefix);
        assert(r is Ok);
        lemma_run_msgs_responses(router, store, block, sender, prefix);
        let rs = r->Ok_0;
        let (s2, r2) = router.execute_spec(s, block, sender, msgs.last());
        assert(r2 is Ok);
        let all = run_msgs(router, store, block, sender, msgs).1->Ok_0;
        assert(all == rs.push(r2->Ok_0));
        let n = msgs.len() - 1;
        assert forall|i: int| 0 <= i < msgs.len() implies #[trigger] answered_in_order(router, store, block, sender, msgs, all, i) by {
            if i < n {
                assert(answered_in_order(router, store, block, sender, prefix, rs, i));
                assert(msgs.take(i) =~= prefix.take(i));
                assert(msgs[i] == prefix[i]);
                assert(all[i] == rs[i]);
            } else {
                assert(msgs.take(i) =~= prefix);
                assert(msgs[i] == msgs.last());
                assert(all[i] == r2->Ok_0);
            }
        }
    }
}

/// A message of a kind that no module handles is refused with an error that
/// names it, and changes nothing.
pub proof fn lemma_unsupported_message_refused<BankT, CustomT, WasmT, StakingT, DistrT, IbcT, GovT, StargateT>(
    router: Router<BankT, CustomT, WasmT, StakingT, DistrT, IbcT, GovT, StargateT>,
    store: Store,
    block: BlockView,
    sender: Seq<char>,
    description: String,
) where
    BankT: Module,
    CustomT: Module,
    WasmT: Wasm,
    StakingT: Staking,
    DistrT: Module,
    IbcT: Module,
    GovT: Module,
    StargateT: Module<ExecT = StargateMsg, QueryT = StargateQuery>,

    ensures
        router.execute_spec(store, block, sender, CosmosMsg::Unsupported { description }) == (
            store,
            Err::<AppResponseView, Seq<char>>("Cannot execute "@ + description@),
        ),
        committed_store(router, store, block, sender, seq![CosmosMsg::Unsupported { description }]) == store,
{
    lemma_single_message_batch(router, store, block, sender, CosmosMsg::Unsupported { description });
}

/// A batch that fails at some point fails as a whole, with the same error,
/// whatever messages follow.
pub proof fn lemma_run_msgs_error_persists<R: CosmosRouter>(
    router: R,
    store: Store,
    block: BlockView,
    sender: Seq<char>,
    msgs: Seq<R::Msg>,
    n: int,
)
    requires
        0 <= n <= msgs.len(),
        run_msgs(router, store, block, sender, msgs.take(n)).1 is Err,
    ensures
        run_msgs(router, store, block, sender, msgs).1 == run_msgs(router, store, block, sender, msgs.take(n)).1,
    decreases msgs.len() - n,
{
    if n < msgs.len() {
        assert(msgs.take(n + 1).drop_last() =~= msgs.take(n));
        lemma_run_msgs_error_persists(router, store, block, sender, msgs, n + 1);
    } else {
        assert(msgs.take(n) =~= msgs);
    }
}

} // verus!

verus! {

/// A successful batch keeps the writes of every message, in order: running
/// one more message `m` after a batch that succeeded runs `m` on the store
/// that the batch left, and the batch with `m` answers with the batch's
/// responses followed by `m`'s, or with `m`'s error. So the store that a
/// successful batch commits is the fold of its messages' stores.
pub proof fn lemma_batch_extends<R: CosmosRouter>(router: R, store: Store, block: BlockView, sender: Seq<char>, msgs: Seq<R::Msg>, m: R::Msg)
    requires
        run_msgs(router, store, block, sender, msgs).1 is Ok,
    ensures
        ({
            let (before, responses) = run_msgs(router, store, block, sender, msgs);
            let (after, answer) = router.execute_spec(before, block, sender, m);
            &&& run_msgs(router, store, block, sender, msgs.push(m)).0 == after
            &&& run_msgs(router, store, block, sender, msgs.push(m)).1 == match answer {
                Ok(response) => Ok(responses->Ok_0.push(response)),
                Err(e) => Err::<Seq<AppResponseView>, Seq<char>>(e),
            }
            &&& answer is Ok ==> committed_store(router, store, block, sender, msgs.push(m)) == after
            &&& answer is Err ==> committed_store(router, store, block, sender, msgs.push(m)) == store
        }),
{
    assert(msgs.push(m).drop_last() =~= msgs);
    assert(msgs.push(m).last() == m);
}

/// A batch of two messages that both succeed keeps the writes of both: the
/// committed store is the second message's store, run on the first one's.
pub proof fn lemma_batch_of_two<R: CosmosRouter>(router: R, store: Store, block: BlockView, sender: Seq<char>, m0: R::Msg, m1: R::Msg)
    requires
        router.execute_spec(store, block, sender, m0).1 is Ok,
        router.execute_spec(router.execute_spec(store, block, sender, m0).0, block, sender, m1).1 is Ok,
    ensures
        committed_store(router, store, block, sender, seq![m0, m1]) == router.execute_spec(
            router.execute_spec(store, block, sender, m0).0,
            block,
            sender,
            m1,
        ).0,
        run_msgs(router, store, block, sender, seq![m0, m1]).1 == Ok::<Seq<AppResponseView>, Seq<char>>(
            seq![
                router.execute_spec(store, block, sender, m0).1->Ok_0,
                router.execute_spec(router.execute_spec(store, block, sender, m0).0, block, sender, m1).1->Ok_0,
            ],
        ),
{
    lemma_single_message_batch(router, store, block, sender, m0);
    lemma_batch_extends(router, store, block, sender, seq![m0], m1);
    assert(seq![m0].push(m1) =~= seq![m0, m1]);
    let r0 = router.execute_spec(store, block, sender, m0).1->Ok_0;
    let r1 = router.execute_spec(router.execute_spec(store, block, sender, m0).0, block, sender, m1).1->Ok_0;
    assert(seq![r0].push(r1) =~= seq![r0, r1]);
}

} // verus!
