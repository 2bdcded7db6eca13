use vstd::prelude::*;

use crate::block::{BlockInfo, BlockView};
use crate::executor::{binary_view, empty_response, error_view, response_view, AppResponse, AppResponseView};
use crate::storage::{KvStore, Store};

verus! {

/// What a state-changing operation leaves behind: the new store and its
/// answer (a response, or the text of an error).
pub type Outcome = (Store, Result<AppResponseView, Seq<char>>);

/// A chain module: it executes messages, answers queries and runs privileged
/// (sudo) actions against the store. It is handed the api of the chain,
/// which it can only carry (the api's type is left open), so each operation is
/// a function of the store, the block and its arguments, given by the
/// module's spec functions.
pub trait Module {
    type ExecT;
    type QueryT;
    type SudoT;

    spec fn execute_spec(&self, store: Store, block: BlockView, sender: Seq<char>, msg: Self::ExecT) -> Outcome;

    spec fn query_spec(&self, store: Store, block: BlockView, request: Self::QueryT) -> Result<Seq<u8>, Seq<char>>;

    spec fn sudo_spec(&self, store: Store, block: BlockView, msg: Self::SudoT) -> Outcome;

    /// Executes a message sent by `sender`.
    fn execute<A, S: KvStore>(
        &self,
        api: &A,
        storage: &mut S,
        block: &BlockInfo,
        sender: String,
        msg: Self::ExecT,
    ) -> (res: Result<AppResponse, String>)
        ensures
            (final(storage).kv(), response_view(res)) == self.execute_spec(old(storage).kv(), block@, sender@, msg),
            final(storage).below() == old(storage).below();

    /// Answers a query.
    fn query<A, S: KvStore>(
        &self,
        api: &A,
        storage: &S,
        block: &BlockInfo,
        request: Self::QueryT,
    ) -> (res: Result<Vec<u8>, String>)
        ensures
            binary_view(res) == self.query_spec(storage.kv(), block@, request);

    /// Runs a privileged action.
    fn sudo<A, S: KvStore>(
        &self,
        api: &A,
        storage: &mut S,
        block: &BlockInfo,
        msg: Self::SudoT,
    ) -> (res: Result<AppResponse, String>)
        ensures
            (final(storage).kv(), response_view(res)) == self.sudo_spec(old(storage).kv(), block@, msg),
            final(storage).below() == old(storage).below();
}

/// A staking module: a module that also keeps a queue of pending work
/// (such as unbondings) that is processed before the block changes.
pub trait Staking: Module {
    spec fn process_queue_spec(&self, store: Store, block: BlockView) -> Outcome;

    /// Processes the pending queue at the current block.
    fn process_queue<A, S: KvStore>(&self, api: &A, storage: &mut S, block: &BlockInfo) -> (res: Result<AppResponse, String>)
        ensures
            (final(storage).kv(), response_view(res)) == self.process_queue_spec(old(storage).kv(), block@),
            final(storage).below() == old(storage).below();
}

/// The wasm module: it runs contracts and keeps the uploaded contract code,
/// of which its view tells.
pub trait Wasm: View {
    type ExecT;
    type QueryT;
    type Code;
    type ContractData;

    spec fn execute_spec(&self, store: Store, block: BlockView, sender: Seq<char>, msg: Self::ExecT) -> Outcome;

    spec fn query_spec(&self, store: Store, block: BlockView, request: Self::QueryT) -> Result<Seq<u8>, Seq<char>>;

    spec fn sudo_spec(&self, store: Store, block: BlockView, contract_addr: Seq<char>, msg: Seq<u8>) -> Outcome;

    /// Whether one more code can be stored.
    spec fn can_store_code(&self) -> bool;

    /// Whether `code_id` is the id of stored code.
    spec fn has_code(&self, code_id: u64) -> bool;

    spec fn store_code_spec(&self, creator: Seq<char>, code: Self::Code) -> (Self::V, u64);

    spec fn duplicate_code_spec(&self, code_id: u64) -> (Self::V, Result<u64, Seq<char>>);

    spec fn contract_data_spec(&self, store: Store, address: Seq<char>) -> Result<Self::ContractData, Seq<char>>;

    spec fn dump_wasm_raw_spec(&self, store: Store, address: Seq<char>) -> Seq<(Seq<u8>, Seq<u8>)>;

    /// Executes a wasm message sent by `sender`.
    fn execute<A, S: KvStore>(
        &self,
        api: &A,
        storage: &mut S,
        block: &BlockInfo,
        sender: String,
        msg: Self::ExecT,
    ) -> (res: Result<AppResponse, String>)
        ensures
            (final(storage).kv(), response_view(res)) == self.execute_spec(old(storage).kv(), block@, sender@, msg),
            final(storage).below() == old(storage).below();

    /// Answers a wasm query.
    fn query<A, S: KvStore>(
        &self,
        api: &A,
        storage: &S,
        block: &BlockInfo,
        request: Self::QueryT,
    ) -> (res: Result<Vec<u8>, String>)
        ensures
            binary_view(res) == self.query_spec(storage.kv(), block@, request);

    /// Calls the sudo entry point of the contract at `contract_addr`.
    fn sudo<A, S: KvStore>(
        &self,
        api: &A,
        contract_addr: String,
        storage: &mut S,
        block: &BlockInfo,
        msg: Vec<u8>,
    ) -> (res: Result<AppResponse, String>)
        ensures
            (final(storage).kv(), response_view(res)) == self.sudo_spec(old(storage).kv(), block@, contract_addr@, msg@),
            final(storage).below() == old(storage).below();

    /// Stores contract code uploaded by `creator` and returns its code id.
    fn store_code(&mut self, creator: String, code: Self::Code) -> (res: u64)
        requires
            old(self).can_store_code(),
        ensures
            (final(self)@, res) == old(self).store_code_spec(creator@, code),
            res != 0,
            !old(self).has_code(res),
            final(self).has_code(res),
            forall|id: u64| #[trigger] old(self).has_code(id) ==> final(self).has_code(id);

    /// Stores a copy of the code with id `code_id` and returns the id of the copy.
    fn duplicate_code(&mut self, code_id: u64) -> (res: Result<u64, String>)
        ensures
            (final(self)@, error_view(res)) == old(self).duplicate_code_spec(code_id),
            res matches Ok(id) ==> {
                &&& old(self).has_code(code_id)
                &&& id != 0
                &&& !old(self).has_code(id)
                &&& final(self).has_code(id)
            },
            forall|id: u64| #[trigger] old(self).has_code(id) ==> final(self).has_code(id);

    /// The data kept about the contract at `address`.
    fn contract_data<S: KvStore>(&self, storage: &S, address: &String) -> (res: Result<Self::ContractData, String>)
        ensures
            error_view(res) == self.contract_data_spec(storage.kv(), address@);

    /// All key-value pairs that the contract at `address` holds.
    fn dump_wasm_raw<S: KvStore>(&self, storage: &S, address: &String) -> (res: Vec<(Vec<u8>, Vec<u8>)>)
        ensures
            res.deep_view() == self.dump_wasm_raw_spec(storage.kv(), address@);
}

/// A module that refuses every message, query and privileged action, and
/// has no pending queue.
pub struct FailingModule<ExecT, QueryT, SudoT> {
    marker: core::marker::PhantomData<(ExecT, QueryT, SudoT)>,
}

impl<ExecT, QueryT, SudoT> FailingModule<ExecT, QueryT, SudoT> {
    pub fn new() -> Self {
        FailingModule { marker: core::marker::PhantomData }
    }
}

impl<ExecT, QueryT, SudoT> Module for FailingModule<ExecT, QueryT, SudoT> {
    type ExecT = ExecT;
    type QueryT = QueryT;
    type SudoT = SudoT;

    open spec fn execute_spec(&self, store: Store, block: BlockView, sender: Seq<char>, msg: ExecT) -> Outcome {
        (store, Err("Unexpected exec msg"@))
    }

    open spec fn query_spec(&self, store: Store, block: BlockView, request: QueryT) -> Result<Seq<u8>, Seq<char>> {
        Err("Unexpected custom query"@)
    }

    open spec fn sudo_spec(&self, store: Store, block: BlockView, msg: SudoT) -> Outcome {
        (store, Err("Unexpected sudo msg"@))
    }

    fn execute<A, S: KvStore>(&self, api: &A, storage: &mut S, block: &BlockInfo, sender: String, msg: ExecT) -> (res: Result<AppResponse, String>) {
        Err(String::from_str("Unexpected exec msg"))
    }

    fn query<A, S: KvStore>(&self, api: &A, storage: &S, block: &BlockInfo, request: QueryT) -> (res: Result<Vec<u8>, String>) {
        Err(String::from_str("Unexpected custom query"))
    }

    fn sudo<A, S: KvStore>(&self, api: &A, storage: &mut S, block: &BlockInfo, msg: SudoT) -> (res: Result<AppResponse, String>) {
        Err(String::from_str("Unexpected sudo msg"))
    }
}

impl<ExecT, QueryT, SudoT> Staking for FailingModule<ExecT, QueryT, SudoT> {
    open spec fn process_queue_spec(&self, store: Store, block: BlockView) -> Outcome {
        (store, Ok(empty_response()))
    }

    fn process_queue<A, S: KvStore>(&self, api: &A, storage: &mut S, block: &BlockInfo) -> (res: Result<AppResponse, String>) {
        Ok(AppResponse::default())
    }
}

/// A module that accepts every message, query and privileged action without
/// touching the store: it answers with an empty response or empty data.
pub struct AcceptingModule<ExecT, QueryT, SudoT> {
    marker: core::marker::PhantomData<(ExecT, QueryT, SudoT)>,
}

impl<ExecT, QueryT, SudoT> AcceptingModule<ExecT, QueryT, SudoT> {
    pub fn new() -> Self {
        AcceptingModule { marker: core::marker::PhantomData }
    }
}

impl<ExecT, QueryT, SudoT> Module for AcceptingModule<ExecT, QueryT, SudoT> {
    type ExecT = ExecT;
    type QueryT = QueryT;
    type SudoT = SudoT;

    open spec fn execute_spec(&self, store: Store, block: BlockView, sender: Seq<char>, msg: ExecT) -> Outcome {
        (store, Ok(empty_response()))
    }

    open spec fn query_spec(&self, store: Store, block: BlockView, request: QueryT) -> Result<Seq<u8>, Seq<char>> {
        Ok(Seq::empty())
    }

    open spec fn sudo_spec(&self, store: Store, block: BlockView, msg: SudoT) -> Outcome {
        (store, Ok(empty_response()))
    }

    fn execute<A, S: KvStore>(&self, api: &A, storage: &mut S, block: &BlockInfo, sender: String, msg: ExecT) -> (res: Result<AppResponse, String>) {
        Ok(AppResponse::default())
    }

    fn query<A, S: KvStore>(&self, api: &A, storage: &S, block: &BlockInfo, request: QueryT) -> (res: Result<Vec<u8>, String>) {
        let data: Vec<u8> = Vec::new();
        Ok(data)
    }

    fn sudo<A, S: KvStore>(&self, api: &A, storage: &mut S, block: &BlockInfo, msg: SudoT) -> (res: Result<AppResponse, String>) {
        Ok(AppResponse::default())
    }
}

impl<ExecT, QueryT, SudoT> Staking for AcceptingModule<ExecT, QueryT, SudoT> {
    open spec fn process_queue_spec(&self, store: Store, block: BlockView) -> Outcome {
        (store, Ok(empty_response()))
    }

    fn process_queue<A, S: KvStore>(&self, api: &A, storage: &mut S, block: &BlockInfo) -> (res: Result<AppResponse, String>) {
        Ok(AppResponse::default())
    }
}

} // verus!
