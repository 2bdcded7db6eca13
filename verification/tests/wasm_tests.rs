use multi_test::wasm::{decimal_string, CodeRegistryWasm};
use multi_test::module::Wasm;

#[test]
fn decimal_string_writes_numbers() {
    assert_eq!(decimal_string(0), "0");
    assert_eq!(decimal_string(7), "7");
    assert_eq!(decimal_string(100), "100");
    assert_eq!(decimal_string(u64::MAX), "18446744073709551615");
}

#[test]
fn code_data_of_unknown_ids() {
    let mut wasm: CodeRegistryWasm<&str, u8, u8> = CodeRegistryWasm::new();
    assert_eq!(wasm.code_data(0).err().unwrap(), "code id: invalid");
    assert_eq!(wasm.code_data(1).err().unwrap(), "code id 1: no such code");
    assert_eq!(wasm.store_code("creator".to_string(), "code"), 1);
    assert_eq!(wasm.code_data(1).unwrap().creator, "creator");
    assert_eq!(wasm.code_data(2).err().unwrap(), "code id 2: no such code");
}
