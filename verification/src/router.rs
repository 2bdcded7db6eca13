use vstd::prelude::*;

use crate::block::{BlockInfo, BlockView};
use crate::executor::{binary_view, response_view, AppResponse};
use crate::module::{Module, Outcome, Staking, Wasm};
use crate::storage::{KvStore, Store};

verus! {

/// A message without content.
#[derive(Debug)]
pub struct Empty {}

/// A protobuf-encoded message for the stargate module.
#[derive(Debug)]
pub struct StargateMsg {
    pub type_url: String,
    pub value: Vec<u8>,
}

/// A protobuf-encoded query for the stargate module.
#[derive(Debug)]
pub struct StargateQuery {
    pub path: String,
    pub data: Vec<u8>,
}

/// A privileged call of a contract's sudo entry point.
#[derive(Debug)]
pub struct WasmSudo {
    pub contract_addr: String,
    pub msg: Vec<u8>,
}

/// A message to execute, by the module that handles it. A message of a kind
/// that no module handles carries its description.
pub enum CosmosMsg<WasmM, BankM, CustomM, StakingM, DistrM, IbcM, GovM> {
    Wasm(WasmM),
    Bank(BankM),
    Custom(CustomM),
    Staking(StakingM),
    Distribution(DistrM),
    Ibc(IbcM),
    Gov(GovM),
    Stargate { type_url: String, value: Vec<u8> },
    Unsupported { description: String },
}

/// A query, by the module that answers it. A query of a kind that no module
/// answers carries its description.
pub enum QueryRequest<WasmQ, BankQ, CustomQ, StakingQ, IbcQ> {
    Wasm(WasmQ),
    Bank(BankQ),
    Custom(CustomQ),
    Staking(StakingQ),
    Ibc(IbcQ),
    Stargate { path: String, data: Vec<u8> },
    Unsupported { description: String },
}

/// A privileged action, by the module that runs it. Things like governance
/// proposals belong here.
pub enum SudoMsg<BankS, StakingS> {
    Bank(BankS),
    Custom(Empty),
    Staking(StakingS),
    Wasm(WasmSudo),
}

impl<BankS, StakingS> SudoMsg<BankS, StakingS> {
    /// The privileged action of the bank module.
    pub fn from_bank(bank: BankS) -> (res: Self)
        ensures
            res == SudoMsg::<BankS, StakingS>::Bank(bank),
    {
        SudoMsg::Bank(bank)
    }

    /// The privileged action of the staking module.
    pub fn from_staking(staking: StakingS) -> (res: Self)
        ensures
            res == SudoMsg::<BankS, StakingS>::Staking(staking),
    {
        SudoMsg::Staking(staking)
    }
}

impl<BankS, StakingS> From<WasmSudo> for SudoMsg<BankS, StakingS> {
    fn from(wasm: WasmSudo) -> (res: Self) {
        SudoMsg::Wasm(wasm)
    }
}

impl<BankS, StakingS> vstd::std_specs::convert::FromSpecImpl<WasmSudo> for SudoMsg<BankS, StakingS> {
    open spec fn obeys_from_spec() -> bool {
        true
    }

    open spec fn from_spec(wasm: WasmSudo) -> Self {
        SudoMsg::Wasm(wasm)
    }
}

/// Routes messages, queries and privileged actions to the modules of a chain.
pub trait CosmosRouter {
    type Msg;
    type Query;
    type Sudo;

    /// Whether the router can execute `msg`.
    spec fn can_execute(&self, msg: Self::Msg) -> bool;

    /// Whether the router can answer `request`.
    spec fn can_query(&self, request: Self::Query) -> bool;

    /// Whether the router can run `msg`.
    spec fn can_sudo(&self, msg: Self::Sudo) -> bool;

    spec fn execute_spec(&self, store: Store, block: BlockView, sender: Seq<char>, msg: Self::Msg) -> Outcome;

    spec fn query_spec(&self, store: Store, block: BlockView, request: Self::Query) -> Result<Seq<u8>, Seq<char>>;

    spec fn sudo_spec(&self, store: Store, block: BlockView, msg: Self::Sudo) -> Outcome;

    /// Executes a message.
    fn execute<A, S: KvStore>(&self, api: &A, storage: &mut S, block: &BlockInfo, sender: String, msg: Self::Msg) -> (res: Result<AppResponse, String>)
        requires
            self.can_execute(msg),
        ensures
            (final(storage).kv(), response_view(res)) == self.execute_spec(old(storage).kv(), block@, sender@, msg),
            final(storage).below() == old(storage).below();

    /// Answers a query.
    fn query<A, S: KvStore>(&self, api: &A, storage: &S, block: &BlockInfo, request: Self::Query) -> (res: Result<Vec<u8>, String>)
        requires
            self.can_query(request),
        ensures
            binary_view(res) == self.query_spec(storage.kv(), block@, request);

    /// Runs a privileged action.
    fn sudo<A, S: KvStore>(&self, api: &A, storage: &mut S, block: &BlockInfo, msg: Self::Sudo) -> (res: Result<AppResponse, String>)
        requires
            self.can_sudo(msg),
        ensures
            (final(storage).kv(), response_view(res)) == self.sudo_spec(old(storage).kv(), block@, msg),
            final(storage).below() == old(storage).below();
}

/// The router of a chain: one module of each kind.
pub struct Router<BankT, CustomT, WasmT, StakingT, DistrT, IbcT, GovT, StargateT> {
    pub wasm: WasmT,
    pub bank: BankT,
    pub custom: CustomT,
    pub staking: StakingT,
    pub distribution: DistrT,
    pub ibc: IbcT,
    pub gov: GovT,
    pub stargate: StargateT,
}

impl<BankT, CustomT, WasmT, StakingT, DistrT, IbcT, GovT, StargateT> Router<BankT, CustomT, WasmT, StakingT, DistrT, IbcT, GovT, StargateT> {
    /// A router made of the given modules.
    pub fn new(
        bank: BankT,
        custom: CustomT,
        wasm: WasmT,
        staking: StakingT,
        distribution: DistrT,
        ibc: IbcT,
        gov: GovT,
        stargate: StargateT,
    ) -> (res: Self)
        ensures
            res.bank == bank,
            res.custom == custom,
            res.wasm == wasm,
            res.staking == staking,
            res.distribution == distribution,
            res.ibc == ibc,
            res.gov == gov,
            res.stargate == stargate,
    {
        Router { wasm, bank, custom, staking, distribution, ibc, gov, stargate }
    }

    /// A querier that answers queries with this router over `storage` at `block_info`.
    pub fn querier<'a, A, S>(&'a self, api: &'a A, storage: &'a S, block_info: &'a BlockInfo) -> (res: RouterQuerier<'a, Self, A, S>)
        ensures
            res.router_of() == *self,
            res.api_of() == *api,
            res.storage_of() == *storage,
            res.block_of() == *block_info,
    {
        RouterQuerier { router: self, api, storage, block_info }
    }
}

impl<BankT, CustomT, WasmT, StakingT, DistrT, IbcT, GovT, StargateT> CosmosRouter for Router<BankT, CustomT, WasmT, StakingT, DistrT, IbcT, GovT, StargateT> where
    BankT: Module,
    CustomT: Module,
    WasmT: Wasm,
    StakingT: Staking,
    DistrT: Module,
    IbcT: Module,
    GovT: Module,
    StargateT: Module<ExecT = StargateMsg, QueryT = StargateQuery>,
 {
    type Msg = CosmosMsg<
        <WasmT as Wasm>::ExecT,
        <BankT as Module>::ExecT,
        <CustomT as Module>::ExecT,
        <StakingT as Module>::ExecT,
        <DistrT as Module>::ExecT,
        <IbcT as Module>::ExecT,
        <GovT as Module>::ExecT,
    >;

    type Query = QueryRequest<
        <WasmT as Wasm>::QueryT,
        <BankT as Module>::QueryT,
        <CustomT as Module>::QueryT,
        <StakingT as Module>::QueryT,
        <IbcT as Module>::QueryT,
    >;

    type Sudo = SudoMsg<<BankT as Module>::SudoT, <StakingT as Module>::SudoT>;

    open spec fn can_execute(&self, msg: Self::Msg) -> bool {
        true
    }

    open spec fn can_query(&self, request: Self::Query) -> bool {
        !(request is Unsupported)
    }

    open spec fn can_sudo(&self, msg: Self::Sudo) -> bool {
        !(msg is Custom)
    }

    open spec fn execute_spec(&self, store: Store, block: BlockView, sender: Seq<char>, msg: Self::Msg) -> Outcome {
        match msg {
            CosmosMsg::Wasm(m) => self.wasm.execute_spec(store, block, sender, m),
            CosmosMsg::Bank(m) => self.bank.execute_spec(store, block, sender, m),
            CosmosMsg::Custom(m) => self.custom.execute_spec(store, block, sender, m),
            CosmosMsg::Staking(m) => self.staking.execute_spec(store, block, sender, m),
            CosmosMsg::Distribution(m) => self.distribution.execute_spec(store, block, sender, m),
            CosmosMsg::Ibc(m) => self.ibc.execute_spec(store, block, sender, m),
            CosmosMsg::Gov(m) => self.gov.execute_spec(store, block, sender, m),
            CosmosMsg::Stargate { type_url, value } => self.stargate.execute_spec(
                store,
                block,
                sender,
                StargateMsg { type_url, value },
            ),
            CosmosMsg::Unsupported { description } => (store, Err("Cannot execute "@ + description@)),
        }
    }

    open spec fn query_spec(&self, store: Store, block: BlockView, request: Self::Query) -> Result<Seq<u8>, Seq<char>> {
        match request {
            QueryRequest::Wasm(q) => self.wasm.query_spec(store, block, q),
            QueryRequest::Bank(q) => self.bank.query_spec(store, block, q),
            QueryRequest::Custom(q) => self.custom.query_spec(store, block, q),
            QueryRequest::Staking(q) => self.staking.query_spec(store, block, q),
            QueryRequest::Ibc(q) => self.ibc.query_spec(store, block, q),
            QueryRequest::Stargate { path, data } => self.stargate.query_spec(store, block, StargateQuery { path, data }),
            QueryRequest::Unsupported { .. } => Err(Seq::empty()),
        }
    }

    open spec fn sudo_spec(&self, store: Store, block: BlockView, msg: Self::Sudo) -> Outcome {
        match msg {
            SudoMsg::Wasm(m) => self.wasm.sudo_spec(store, block, m.contract_addr@, m.msg@),
            SudoMsg::Bank(m) => self.bank.sudo_spec(store, block, m),
            SudoMsg::Staking(m) => self.staking.sudo_spec(store, block, m),
            SudoMsg::Custom(_) => (store, Err(Seq::empty())),
        }
    }

    fn execute<A, S: KvStore>(&self, api: &A, storage: &mut S, block: &BlockInfo, sender: String, msg: Self::Msg) -> (res: Result<AppResponse, String>) {
        match msg {
            CosmosMsg::Wasm(m) => self.wasm.execute(api, storage, block, sender, m),
            CosmosMsg::Bank(m) => self.bank.execute(api, storage, block, sender, m),
            CosmosMsg::Custom(m) => self.custom.execute(api, storage, block, sender, m),
            CosmosMsg::Staking(m) => self.staking.execute(api, storage, block, sender, m),
            CosmosMsg::Distribution(m) => self.distribution.execute(api, storage, block, sender, m),
            CosmosMsg::Ibc(m) => self.ibc.execute(api, storage, block, sender, m),
            CosmosMsg::Gov(m) => self.gov.execute(api, storage, block, sender, m),
            CosmosMsg::Stargate { type_url, value } => self.stargate.execute(
                api,
                storage,
                block,
                sender,
                StargateMsg { type_url, value },
            ),
            CosmosMsg::Unsupported { description } => {
                Err(String::from_str("Cannot execute ").concat(description.as_str()))
            },
        }
    }

    fn query<A, S: KvStore>(&self, api: &A, storage: &S, block: &BlockInfo, request: Self::Query) -> (res: Result<Vec<u8>, String>) {
        match request {
            QueryRequest::Wasm(q) => self.wasm.query(api, storage, block, q),
            QueryRequest::Bank(q) => self.bank.query(api, storage, block, q),
            QueryRequest::Custom(q) => self.custom.query(api, storage, block, q),
            QueryRequest::Staking(q) => self.staking.query(api, storage, block, q),
            QueryRequest::Ibc(q) => self.ibc.query(api, storage, block, q),
            QueryRequest::Stargate { path, data } => self.stargate.query(api, storage, block, StargateQuery { path, data }),
            QueryRequest::Unsupported { .. } => {
                proof {
                    assert(false);
                }
                Err(String::new())
            },
        }
    }

    fn sudo<A, S: KvStore>(&self, api: &A, storage: &mut S, block: &BlockInfo, msg: Self::Sudo) -> (res: Result<AppResponse, String>) {
        match msg {
            SudoMsg::Wasm(m) => self.wasm.sudo(api, m.contract_addr, storage, block, m.msg),
            SudoMsg::Bank(m) => self.bank.sudo(api, storage, block, m),
            SudoMsg::Staking(m) => self.staking.sudo(api, storage, block, m),
            SudoMsg::Custom(_) => {
                proof {
                    assert(false);
                }
                Err(String::new())
            },
        }
    }
}

/// A router for tests of code that needs one but never routes anything
/// through it: it can execute, answer and run nothing.
pub struct MockRouter<ExecC, QueryC> {
    marker: core::marker::PhantomData<(ExecC, QueryC)>,
}

impl<ExecC, QueryC> MockRouter<ExecC, QueryC> {
    /// The one mock router of these message types.
    pub closed spec fn the_mock() -> Self {
        MockRouter { marker: core::marker::PhantomData }
    }

    pub fn new() -> (res: Self)
        ensures
            res == Self::the_mock(),
    {
        MockRouter { marker: core::marker::PhantomData }
    }
}

impl Default for MockRouter<Empty, Empty> {
    fn default() -> (res: Self)
        ensures
            res == Self::the_mock(),
    {
        Self::new()
    }
}

impl<ExecC, QueryC> CosmosRouter for MockRouter<ExecC, QueryC> {
    type Msg = ExecC;
    type Query = QueryC;
    type Sudo = SudoMsg<Empty, Empty>;

    open spec fn can_execute(&self, msg: ExecC) -> bool {
        false
    }

    open spec fn can_query(&self, request: QueryC) -> bool {
        false
    }

    open spec fn can_sudo(&self, msg: SudoMsg<Empty, Empty>) -> bool {
        false
    }

    open spec fn execute_spec(&self, store: Store, block: BlockView, sender: Seq<char>, msg: ExecC) -> Outcome {
        (store, Err("Cannot execute MockRouters"@))
    }

    open spec fn query_spec(&self, store: Store, block: BlockView, request: QueryC) -> Result<Seq<u8>, Seq<char>> {
        Err("Cannot query MockRouters"@)
    }

    open spec fn sudo_spec(&self, store: Store, block: BlockView, msg: SudoMsg<Empty, Empty>) -> Outcome {
        (store, Err("Cannot sudo MockRouters"@))
    }

    fn execute<A, S: KvStore>(&self, api: &A, storage: &mut S, block: &BlockInfo, sender: String, msg: ExecC) -> (res: Result<AppResponse, String>) {
        Err(String::from_str("Cannot execute MockRouters"))
    }

    fn query<A, S: KvStore>(&self, api: &A, storage: &S, block: &BlockInfo, request: QueryC) -> (res: Result<Vec<u8>, String>) {
        Err(String::from_str("Cannot query MockRouters"))
    }

    fn sudo<A, S: KvStore>(&self, api: &A, storage: &mut S, block: &BlockInfo, msg: SudoMsg<Empty, Empty>) -> (res: Result<AppResponse, String>) {
        Err(String::from_str("Cannot sudo MockRouters"))
    }
}

/// The error of a query that could not be handled at all.
#[derive(Debug)]
pub enum SystemError {
    InvalidRequest { error: String, request: Vec<u8> },
}

/// The mathematical value of a [`SystemError`].
pub enum SystemErrorView {
    InvalidRequest { error: Seq<char>, request: Seq<u8> },
}

impl View for SystemError {
    type V = SystemErrorView;

    open spec fn view(&self) -> SystemErrorView {
        match self {
            SystemError::InvalidRequest { error, request } => SystemErrorView::InvalidRequest { error: error@, request: request@ },
        }
    }
}

/// The answer of a contract or module: data, or the text of an error.
pub enum ContractResult<T> {
    Success(T),
    Failure(String),
}

impl<T: View> View for ContractResult<T> {
    type V = Result<T::V, Seq<char>>;

    open spec fn view(&self) -> Result<T::V, Seq<char>> {
        match self {
            ContractResult::Success(t) => Ok(t@),
            ContractResult::Failure(e) => Err(e@),
        }
    }
}

/// The answer of the querier: the module's answer, or a system error.
pub enum SystemResult<T> {
    Success(T),
    Failure(SystemError),
}

impl<T: View> View for SystemResult<T> {
    type V = Result<T::V, SystemErrorView>;

    open spec fn view(&self) -> Result<T::V, SystemErrorView> {
        match self {
            SystemResult::Success(t) => Ok(t@),
            SystemResult::Failure(e) => Err(e@),
        }
    }
}

/// What a querier answers for the raw request `request`, given what parsing
/// it gave: a system error where it did not parse, and otherwise the answer
/// of the router.
pub open spec fn raw_query_spec<R: CosmosRouter>(
    router: R,
    store: Store,
    block: BlockView,
    request: Seq<u8>,
    parsed: Result<R::Query, Seq<char>>,
) -> Result<Result<Seq<u8>, Seq<char>>, SystemErrorView> {
    match parsed {
        Ok(query) => Ok(router.query_spec(store, block, query)),
        Err(e) => Err(SystemErrorView::InvalidRequest { error: "Parsing query request: "@ + e, request }),
    }
}

/// Answers raw queries with a router over a store at a block.
pub struct RouterQuerier<'a, R, A, S> {
    router: &'a R,
    api: &'a A,
    storage: &'a S,
    block_info: &'a BlockInfo,
}

impl<'a, R, A, S> RouterQuerier<'a, R, A, S> {
    pub closed spec fn router_of(&self) -> R {
        *self.router
    }

    pub closed spec fn api_of(&self) -> A {
        *self.api
    }

    pub closed spec fn storage_of(&self) -> S {
        *self.storage
    }

    pub closed spec fn block_of(&self) -> BlockInfo {
        *self.block_info
    }

    /// A querier over the given parts.
    pub fn new(router: &'a R, api: &'a A, storage: &'a S, block_info: &'a BlockInfo) -> (res: Self)
        ensures
            res.router_of() == *router,
            res.api_of() == *api,
            res.storage_of() == *storage,
            res.block_of() == *block_info,
    {
        RouterQuerier { router, api, storage, block_info }
    }
}

impl<'a, R: CosmosRouter, A, S: KvStore> RouterQuerier<'a, R, A, S> {
    /// Answers the raw request `bin_request`, of which `parsed` is the parse
    /// (or the text of the parse error).
    pub fn raw_query(&self, bin_request: &[u8], parsed: Result<R::Query, String>) -> (res: SystemResult<ContractResult<Vec<u8>>>)
        requires
            parsed matches Ok(q) ==> self.router_of().can_query(q),
        ensures
            res@ == raw_query_spec(self.router_of(), self.storage_of().kv(), self.block_of()@, bin_request@, crate::executor::error_view(parsed)),
    {
        match parsed {
            Ok(request) => {
                let answer = self.router.query(self.api, self.storage, self.block_info, request);
                let contract_result = match answer {
                    Ok(data) => ContractResult::Success(data),
                    Err(e) => ContractResult::Failure(e),
                };
                SystemResult::Success(contract_result)
            },
            Err(e) => {
                SystemResult::Failure(SystemError::InvalidRequest {
                    error: String::from_str("Parsing query request: ").concat(e.as_str()),
                    request: vstd::slice::slice_to_vec(bin_request),
                })
            },
        }
    }
}

} // verus!

verus! {

/// The router hands each message to the module of its kind and answers with
/// that module's outcome unchanged, success and error alike; a stargate
/// message reaches the stargate module with the same type url and value.
pub proof fn lemma_execute_dispatch<BankT, CustomT, WasmT, StakingT, DistrT, IbcT, GovT, StargateT>(
    router: Router<BankT, CustomT, WasmT, StakingT, DistrT, IbcT, GovT, StargateT>,
    store: Store,
    block: BlockView,
    sender: Seq<char>,
    msg: <Router<BankT, CustomT, WasmT, StakingT, DistrT, IbcT, GovT, StargateT> as CosmosRouter>::Msg,
) where
    BankT: Module,
    CustomT: Module,
    WasmT: Wasm,
    StakingT: Staking,
    DistrT: Module,
    IbcT: Module,
    GovT: Module,
    StargateT: Module<ExecT = StargateMsg, QueryT = StargateQuery>,

    ensures
        msg matches CosmosMsg::Wasm(m) ==> router.execute_spec(store, block, sender, msg) == router.wasm.execute_spec(store, block, sender, m),
        msg matches CosmosMsg::Bank(m) ==> router.execute_spec(store, block, sender, msg) == router.bank.execute_spec(store, block, sender, m),
        msg matches CosmosMsg::Custom(m) ==> router.execute_spec(store, block, sender, msg) == router.custom.execute_spec(store, block, sender, m),
        msg matches CosmosMsg::Staking(m) ==> router.execute_spec(store, block, sender, msg) == router.staking.execute_spec(store, block, sender, m),
        msg matches CosmosMsg::Distribution(m) ==> router.execute_spec(store, block, sender, msg) == router.distribution.execute_spec(store, block, sender, m),
        msg matches CosmosMsg::Ibc(m) ==> router.execute_spec(store, block, sender, msg) == router.ibc.execute_spec(store, block, sender, m),
        msg matches CosmosMsg::Gov(m) ==> router.execute_spec(store, block, sender, msg) == router.gov.execute_spec(store, block, sender, m),
        msg matches CosmosMsg::Stargate { type_url, value } ==> router.execute_spec(store, block, sender, msg) == router.stargate.execute_spec(
            store,
            block,
            sender,
            StargateMsg { type_url, value },
        ),
{
}

/// The router answers each query with the module of its kind, and its answer
/// (data or error) is that module's, unchanged.
pub proof fn lemma_query_dispatch<BankT, CustomT, WasmT, StakingT, DistrT, IbcT, GovT, StargateT>(
    router: Router<BankT, CustomT, WasmT, StakingT, DistrT, IbcT, GovT, StargateT>,
    store: Store,
    block: BlockView,
    request: <Router<BankT, CustomT, WasmT, StakingT, DistrT, IbcT, GovT, StargateT> as CosmosRouter>::Query,
) where
    BankT: Module,
    CustomT: Module,
    WasmT: Wasm,
    StakingT: Staking,
    DistrT: Module,
    IbcT: Module,
    GovT: Module,
    StargateT: Module<ExecT = StargateMsg, QueryT = StargateQuery>,

    ensures
        request matches QueryRequest::Wasm(q) ==> router.query_spec(store, block, request) == router.wasm.query_spec(store, block, q),
        request matches QueryRequest::Bank(q) ==> router.query_spec(store, block, request) == router.bank.query_spec(store, block, q),
        request matches QueryRequest::Custom(q) ==> router.query_spec(store, block, request) == router.custom.query_spec(store, block, q),
        request matches QueryRequest::Staking(q) ==> router.query_spec(store, block, request) == router.staking.query_spec(store, block, q),
        request matches QueryRequest::Ibc(q) ==> router.query_spec(store, block, request) == router.ibc.query_spec(store, block, q),
        request matches QueryRequest::Stargate { path, data } ==> router.query_spec(store, block, request) == router.stargate.query_spec(
            store,
            block,
            StargateQuery { path, data },
        ),
{
}

/// The router runs each privileged action with the module of its kind (a
/// wasm sudo with the same contract address and message) and answers with
/// that module's outcome unchanged, success and error alike.
pub proof fn lemma_sudo_dispatch<BankT, CustomT, WasmT, StakingT, DistrT, IbcT, GovT, StargateT>(
    router: Router<BankT, CustomT, WasmT, StakingT, DistrT, IbcT, GovT, StargateT>,
    store: Store,
    block: BlockView,
    msg: <Router<BankT, CustomT, WasmT, StakingT, DistrT, IbcT, GovT, StargateT> as CosmosRouter>::Sudo,
) where
    BankT: Module,
    CustomT: Module,
    WasmT: Wasm,
    StakingT: Staking,
    DistrT: Module,
    IbcT: Module,
    GovT: Module,
    StargateT: Module<ExecT = StargateMsg, QueryT = StargateQuery>,

    ensures
        msg matches SudoMsg::Bank(m) ==> router.sudo_spec(store, block, msg) == router.bank.sudo_spec(store, block, m),
        msg matches SudoMsg::Staking(m) ==> router.sudo_spec(store, block, msg) == router.staking.sudo_spec(store, block, m),
        msg matches SudoMsg::Wasm(w) ==> router.sudo_spec(store, block, msg) == router.wasm.sudo_spec(store, block, w.contract_addr@, w.msg@),
{
}

/// A querier answers a request that parsed with exactly the router's answer
/// over its store and block (data with the same bytes, or the same error);
/// a request that did not parse is answered with an invalid-request error
/// that carries the parse error and the raw request.
pub proof fn lemma_raw_query_answers<R: CosmosRouter>(
    router: R,
    store: Store,
    block: BlockView,
    request: Seq<u8>,
    parsed: Result<R::Query, Seq<char>>,
)
    ensures
        parsed matches Ok(q) ==> raw_query_spec(router, store, block, request, parsed) == Ok::<
            Result<Seq<u8>, Seq<char>>,
            SystemErrorView,
        >(router.query_spec(store, block, q)),
        parsed matches Ok(q) ==> (router.query_spec(store, block, q) matches Ok(d) ==> raw_query_spec(
            router,
            store,
            block,
            request,
            parsed,
        ) == Ok::<Result<Seq<u8>, Seq<char>>, SystemErrorView>(Ok(d))),
        parsed matches Err(e) ==> raw_query_spec(router, store, block, request, parsed) == Err::<
            Result<Seq<u8>, Seq<char>>,
            SystemErrorView,
        >(SystemErrorView::InvalidRequest { error: "Parsing query request: "@ + e, request }),
{
}

} // verus!
