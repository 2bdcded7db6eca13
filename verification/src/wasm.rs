use vstd::prelude::*;

use crate::block::{BlockInfo, BlockView};
use crate::executor::AppResponse;
use crate::module::{Outcome, Wasm};
use crate::storage::{KvStore, Store};

verus! {

/// What the chain keeps about one code id: who uploaded the code, and which
/// entry of the code base holds it.
#[derive(Debug)]
pub struct CodeData {
    pub creator: String,
    pub source_id: usize,
}

/// The mathematical value of a [`CodeData`].
pub struct CodeDataView {
    pub creator: Seq<char>,
    pub source_id: nat,
}

impl View for CodeData {
    type V = CodeDataView;

    open spec fn view(&self) -> CodeDataView {
        CodeDataView { creator: self.creator@, source_id: self.source_id as nat }
    }
}

/// What the chain keeps about an instantiated contract.
#[derive(Debug)]
pub struct ContractData {
    pub code_id: u64,
    pub creator: String,
    pub admin: Option<String>,
    pub label: String,
    pub created: u64,
}

/// The codes kept by a [`CodeRegistryWasm`]: the uploaded code, and for the
/// code id `i + 1` the entry `code_data[i]`.
pub struct CodeRegistryView<Code> {
    pub code_base: Seq<Code>,
    pub code_data: Seq<CodeDataView>,
}

/// A wasm module that keeps uploaded contract code and runs no contract:
/// each wasm message, query and privileged call is refused, and no address
/// holds a contract.
pub struct CodeRegistryWasm<Code, ExecT, QueryT> {
    code_base: Vec<Code>,
    code_data: Vec<CodeData>,
    marker: core::marker::PhantomData<(ExecT, QueryT)>,
}

impl<Code, ExecT, QueryT> View for CodeRegistryWasm<Code, ExecT, QueryT> {
    type V = CodeRegistryView<Code>;

    closed spec fn view(&self) -> CodeRegistryView<Code> {
        CodeRegistryView { code_base: self.code_base@, code_data: self.code_data@.map_values(|d: CodeData| d@) }
    }
}

impl<Code, ExecT, QueryT> CodeRegistryWasm<Code, ExecT, QueryT> {
    /// A registry with no code.
    pub fn new() -> (res: Self)
        ensures
            res@.code_base == Seq::<Code>::empty(),
            res@.code_data == Seq::<CodeDataView>::empty(),
    {
        let res = CodeRegistryWasm { code_base: Vec::new(), code_data: Vec::new(), marker: core::marker::PhantomData };
        assert(res@.code_data =~= Seq::<CodeDataView>::empty());
        res
    }

    /// The data kept about the code with id `code_id`.
    pub fn code_data(&self, code_id: u64) -> (res: Result<&CodeData, String>)
        ensures
            code_id < 1 ==> (res matches Err(e) && e@ == "code id: invalid"@),
            1 <= code_id <= self@.code_data.len() ==> (res matches Ok(d) && d@ == self@.code_data[code_id - 1]),
            code_id > self@.code_data.len() ==> (res matches Err(e) && e@ == no_such_code(code_id)),
    {
        if code_id < 1 {
            return Err(String::from_str("code id: invalid"));
        }
        if code_id as u128 > self.code_data.len() as u128 {
            let text = String::from_str("code id ").concat(decimal_string(code_id).as_str()).concat(": no such code");
            return Err(text);
        }
        Ok(&self.code_data[(code_id - 1) as usize])
    }

    /// The number of code ids given out.
    pub fn code_count(&self) -> (res: usize)
        ensures
            res == self@.code_data.len(),
    {
        self.code_data.len()
    }
}

/// The decimal digit `d`.
pub open spec fn digit_char(d: nat) -> char {
    if d == 0 {
        '0'
    } else if d == 1 {
        '1'
    } else if d == 2 {
        '2'
    } else if d == 3 {
        '3'
    } else if d == 4 {
        '4'
    } else if d == 5 {
        '5'
    } else if d == 6 {
        '6'
    } else if d == 7 {
        '7'
    } else if d == 8 {
        '8'
    } else {
        '9'
    }
}

/// The decimal notation of `n`, without leading zeros.
pub open spec fn decimal(n: nat) -> Seq<char>
    decreases n,
{
    if n < 10 {
        seq![digit_char(n)]
    } else {
        decimal(n / 10) + seq![digit_char(n % 10)]
    }
}

fn digit_str(d: u64) -> (res: &'static str)
    requires
        d < 10,
    ensures
        res@ == seq![digit_char(d as nat)],
{
    if d == 0 {
        proof { reveal_strlit("0"); }
        "0"
    } else if d == 1 {
        proof { reveal_strlit("1"); }
        "1"
    } else if d == 2 {
        proof { reveal_strlit("2"); }
        "2"
    } else if d == 3 {
        proof { reveal_strlit("3"); }
        "3"
    } else if d == 4 {
        proof { reveal_strlit("4"); }
        "4"
    } else if d == 5 {
        proof { reveal_strlit("5"); }
        "5"
    } else if d == 6 {
        proof { reveal_strlit("6"); }
        "6"
    } else if d == 7 {
        proof { reveal_strlit("7"); }
        "7"
    } else if d == 8 {
        proof { reveal_strlit("8"); }
        "8"
    } else {
        proof { reveal_strlit("9"); }
        "9"
    }
}

/// The decimal notation of `n`.
pub fn decimal_string(n: u64) -> (res: String)
    ensures
        res@ == decimal(n as nat),
    decreases n,
{
    if n < 10 {
        String::from_str(digit_str(n))
    } else {
        let mut s = decimal_string(n / 10);
        s.append(digit_str(n % 10));
        s
    }
}

/// The text of the error for a code id that no code has.
pub open spec fn no_such_code(code_id: u64) -> Seq<char> {
    "code id "@ + decimal(code_id as nat) + ": no such code"@
}

impl<Code, ExecT, QueryT> Wasm for CodeRegistryWasm<Code, ExecT, QueryT> {
    type ExecT = ExecT;
    type QueryT = QueryT;
    type Code = Code;
    type ContractData = ContractData;

    open spec fn execute_spec(&self, store: Store, block: BlockView, sender: Seq<char>, msg: ExecT) -> Outcome {
        (store, Err("Unsupported wasm message"@))
    }

    open spec fn query_spec(&self, store: Store, block: BlockView, request: QueryT) -> Result<Seq<u8>, Seq<char>> {
        Err("Unsupported wasm query"@)
    }

    open spec fn sudo_spec(&self, store: Store, block: BlockView, contract_addr: Seq<char>, msg: Seq<u8>) -> Outcome {
        (store, Err("Unsupported wasm sudo"@))
    }

    open spec fn can_store_code(&self) -> bool {
        &&& self@.code_base.len() < usize::MAX
        &&& self@.code_data.len() < usize::MAX
    }

    open spec fn has_code(&self, code_id: u64) -> bool {
        is_issued(self@, code_id)
    }

    open spec fn store_code_spec(&self, creator: Seq<char>, code: Code) -> (CodeRegistryView<Code>, u64) {
        (
            CodeRegistryView {
                code_base: self@.code_base.push(code),
                code_data: self@.code_data.push(CodeDataView { creator, source_id: self@.code_base.len() }),
            },
            (self@.code_data.len() + 1) as u64,
        )
    }

    open spec fn duplicate_code_spec(&self, code_id: u64) -> (CodeRegistryView<Code>, Result<u64, Seq<char>>) {
        if code_id < 1 {
            (self@, Err("code id: invalid"@))
        } else if code_id > self@.code_data.len() {
            (self@, Err(no_such_code(code_id)))
        } else if self@.code_data.len() >= usize::MAX {
            (self@, Err("no more code ids available"@))
        } else {
            (
                CodeRegistryView {
                    code_base: self@.code_base,
                    code_data: self@.code_data.push(self@.code_data[code_id - 1]),
                },
                Ok((self@.code_data.len() + 1) as u64),
            )
        }
    }

    open spec fn contract_data_spec(&self, store: Store, address: Seq<char>) -> Result<ContractData, Seq<char>> {
        Err("no such contract: "@ + address)
    }

    open spec fn dump_wasm_raw_spec(&self, store: Store, address: Seq<char>) -> Seq<(Seq<u8>, Seq<u8>)> {
        Seq::empty()
    }

    fn execute<A, S: KvStore>(&self, api: &A, storage: &mut S, block: &BlockInfo, sender: String, msg: ExecT) -> (res: Result<AppResponse, String>) {
        Err(String::from_str("Unsupported wasm message"))
    }

    fn query<A, S: KvStore>(&self, api: &A, storage: &S, block: &BlockInfo, request: QueryT) -> (res: Result<Vec<u8>, String>) {
        Err(String::from_str("Unsupported wasm query"))
    }

    fn sudo<A, S: KvStore>(&self, api: &A, contract_addr: String, storage: &mut S, block: &BlockInfo, msg: Vec<u8>) -> (res: Result<AppResponse, String>) {
        Err(String::from_str("Unsupported wasm sudo"))
    }

    fn store_code(&mut self, creator: String, code: Code) -> (res: u64) {
        let ghost before = self@;
        let source_id = self.code_base.len();
        self.code_base.push(code);
        self.code_data.push(CodeData { creator, source_id });
        proof {
            assert(self@.code_data =~= before.code_data.push(CodeDataView { creator: creator@, source_id: source_id as nat }));
        }
        self.code_data.len() as u64
    }

    fn duplicate_code(&mut self, code_id: u64) -> (res: Result<u64, String>) {
        let (creator, source_id) = match self.code_data(code_id) {
            Ok(data) => (data.creator.clone(), data.source_id),
            Err(e) => {
                return Err(e);
            },
        };
        if self.code_data.len() == usize::MAX {
            return Err(String::from_str("no more code ids available"));
        }
        let ghost before = self@;
        self.code_data.push(CodeData { creator, source_id });
        proof {
            assert(self@.code_data =~= before.code_data.push(before.code_data[code_id - 1]));
        }
        Ok(self.code_data.len() as u64)
    }

    fn contract_data<S: KvStore>(&self, storage: &S, address: &String) -> (res: Result<ContractData, String>) {
        Err(String::from_str("no such contract: ").concat(address.as_str()))
    }

    fn dump_wasm_raw<S: KvStore>(&self, storage: &S, address: &String) -> (res: Vec<(Vec<u8>, Vec<u8>)>) {
        let res: Vec<(Vec<u8>, Vec<u8>)> = Vec::new();
        proof {
            assert(res.deep_view() =~= Seq::<(Seq<u8>, Seq<u8>)>::empty());
        }
        res
    }
}

} // verus!

verus! {

/// Whether `code_id` was given out by a registry with view `codes`: the ids
/// given out are exactly 1 to the number of codes.
pub open spec fn is_issued<Code>(codes: CodeRegistryView<Code>, code_id: u64) -> bool {
    1 <= code_id <= codes.code_data.len()
}

/// Storing code gives out a fresh id: one more than the number of ids given
/// out so far, never 0 and never one given out before. Every earlier id keeps
/// its data, and the new id is registered with the stored code and its creator.
pub proof fn lemma_store_code_fresh_id<Code, ExecT, QueryT>(
    wasm: CodeRegistryWasm<Code, ExecT, QueryT>,
    creator: Seq<char>,
    code: Code,
)
    requires
        wasm.can_store_code(),
    ensures
        ({
            let (after, id) = wasm.store_code_spec(creator, code);
            &&& id == wasm@.code_data.len() + 1
            &&& id != 0
            &&& !is_issued(wasm@, id)
            &&& is_issued(after, id)
            &&& after.code_data.len() == wasm@.code_data.len() + 1
            &&& forall|old_id: u64| #[trigger]
                is_issued(wasm@, old_id) ==> is_issued(after, old_id) && after.code_data[old_id - 1]
                    == wasm@.code_data[old_id - 1]
            &&& after.code_data[id - 1].creator == creator
            &&& after.code_base[after.code_data[id - 1].source_id as int] == code
        }),
{
}

/// Duplicating code that exists gives out a fresh id in the same way, whose
/// data is that of the duplicated code (same creator, same stored code);
/// duplicating an id that was not given out fails and changes nothing.
pub proof fn lemma_duplicate_code_fresh_id<Code, ExecT, QueryT>(wasm: CodeRegistryWasm<Code, ExecT, QueryT>, code_id: u64)
    ensures
        ({
            let (after, res) = wasm.duplicate_code_spec(code_id);
            &&& !is_issued(wasm@, code_id) ==> res is Err && after == wasm@
            &&& res matches Ok(id) ==> {
                &&& is_issued(wasm@, code_id)
                &&& id == wasm@.code_data.len() + 1
                &&& id != 0
                &&& !is_issued(wasm@, id)
                &&& is_issued(after, id)
                &&& after.code_base == wasm@.code_base
                &&& forall|old_id: u64| #[trigger]
                    is_issued(wasm@, old_id) ==> is_issued(after, old_id) && after.code_data[old_id - 1]
                        == wasm@.code_data[old_id - 1]
                &&& after.code_data[id - 1] == wasm@.code_data[code_id - 1]
            }
        }),
{
}

} // verus!

verus! {

/// Duplicating any id that was given out succeeds while ids remain, and the
/// copy gets the next id: it does not matter how many codes were uploaded,
/// only which ids were given out.
pub proof fn lemma_duplicate_issued_code<Code, ExecT, QueryT>(wasm: CodeRegistryWasm<Code, ExecT, QueryT>, code_id: u64)
    requires
        is_issued(wasm@, code_id),
        wasm@.code_data.len() < usize::MAX,
    ensures
        wasm.duplicate_code_spec(code_id).1 == Ok::<u64, Seq<char>>((wasm@.code_data.len() + 1) as u64),
        wasm.duplicate_code_spec(code_id).0.code_data == wasm@.code_data.push(wasm@.code_data[code_id - 1]),
        wasm.duplicate_code_spec(code_id).0.code_base == wasm@.code_base,
{
}

} // verus!
