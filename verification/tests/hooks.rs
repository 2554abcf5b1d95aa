use imp_core::frozen::CodeObject;
use imp_core::hooks::{imp_extension_suffixes, imp_fix_co_filename, imp_source_hash};

#[test]
fn no_extension_suffixes() {
    let suffixes = imp_extension_suffixes();
    assert!(suffixes.is_empty());
    assert_eq!(suffixes, Vec::<String>::new());
}

#[test]
fn fix_co_filename_leaves_the_code_as_it_is() {
    let mut code = CodeObject {
        bytecode: vec![1, 2, 3],
        obj_name: "f".to_string(),
        first_line_number: 12,
        source_path: "old/place.py".to_string(),
    };
    let before = code.clone();
    imp_fix_co_filename(&mut code, "new/place.py");
    assert_eq!(code, before);
    assert_eq!(code.source_path, "old/place.py");
    imp_fix_co_filename(&mut code, "");
    assert_eq!(code, before);
}

#[test]
fn source_hash_is_absent() {
    assert_eq!(imp_source_hash(0, b""), None);
    assert_eq!(imp_source_hash(42, b"print('hi')"), None);
    assert_eq!(imp_source_hash(u64::MAX, &[0u8; 64]), None);
}
