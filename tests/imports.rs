use wasm_vm_core::imports::{Imports, Initializers, NULL_ENV};

type TestImports = Imports<u32, u8, u16, u64, fn() -> u32>;

fn init_a() -> u32 {
    1
}

fn init_b() -> u32 {
    2
}

#[test]
fn initializers_handed_out_once() {
    let entries: Vec<(Option<fn() -> u32>, usize)> =
        vec![(Some(init_a as fn() -> u32), 0x1000), (None, 0x2000), (Some(init_b as fn() -> u32), 0x3000)];
    let mut imports: TestImports = Imports::new(vec![10, 11, 12], entries, vec![1], vec![2], vec![3]);
    let first = imports.get_import_initializers();
    assert_eq!(first.len(), 3);
    assert_eq!(first[0].0.map(|f| f()), Some(1));
    assert_eq!(first[0].1, 0x1000);
    assert!(first[1].0.is_none());
    assert_eq!(first[1].1, NULL_ENV);
    assert_eq!(first[2].0.map(|f| f()), Some(2));
    assert_eq!(first[2].1, 0x3000);
    assert!(matches!(imports.host_function_env_initializers, Initializers::Consumed));
    let second = imports.get_import_initializers();
    assert!(second.is_empty());
    assert_eq!(imports.functions, vec![10, 11, 12]);
    assert_eq!(imports.tables, vec![1]);
    assert_eq!(imports.memories, vec![2]);
    assert_eq!(imports.globals, vec![3]);
}

#[test]
fn imports_none_is_empty() {
    let mut imports: TestImports = Imports::none();
    assert!(imports.functions.is_empty());
    assert!(imports.tables.is_empty());
    assert!(imports.memories.is_empty());
    assert!(imports.globals.is_empty());
    assert!(matches!(imports.host_function_env_initializers, Initializers::Available(_)));
    assert!(imports.get_import_initializers().is_empty());
    assert!(imports.get_import_initializers().is_empty());
}
