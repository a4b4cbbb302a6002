use std::str::FromStr;
use target_lexicon::Triple;
use wasm_vm_core::memory::{ElementKind, MemoryStyle, MemoryType, Pages, TableStyle, TableType};
use wasm_vm_core::target::{OsCategory, PointerWidth, Target};
use wasm_vm_core::tunables::Tunables;

fn target(pointer_width: PointerWidth, operating_system: OsCategory) -> Target {
    Target { pointer_width, operating_system }
}

#[test]
fn memory_style() {
    let tunables = Tunables {
        static_memory_bound: Pages(2048),
        static_memory_offset_guard_size: 128,
        dynamic_memory_offset_guard_size: 256,
    };

    // No maximum
    let requested = MemoryType::new(3, None, true);
    let style = tunables.memory_style(&requested);
    match style {
        MemoryStyle::Dynamic { offset_guard_size } => assert_eq!(offset_guard_size, 256),
        s => panic!("Unexpected memory style: {:?}", s),
    }

    // Large maximum
    let requested = MemoryType::new(3, Some(5_000_000), true);
    let style = tunables.memory_style(&requested);
    match style {
        MemoryStyle::Dynamic { offset_guard_size } => assert_eq!(offset_guard_size, 256),
        s => panic!("Unexpected memory style: {:?}", s),
    }

    // Small maximum
    let requested = MemoryType::new(3, Some(16), true);
    let style = tunables.memory_style(&requested);
    match style {
        MemoryStyle::Static {
            bound,
            offset_guard_size,
        } => {
            assert_eq!(bound, Pages(2048));
            assert_eq!(offset_guard_size, 128);
        }
        s => panic!("Unexpected memory style: {:?}", s),
    }
}

#[test]
fn memory_style_at_the_bound_is_static() {
    let tunables = Tunables {
        static_memory_bound: Pages(2048),
        static_memory_offset_guard_size: 128,
        dynamic_memory_offset_guard_size: 256,
    };
    let at = tunables.memory_style(&MemoryType::new(0, Some(2048), false));
    assert_eq!(at, MemoryStyle::Static { bound: Pages(2048), offset_guard_size: 128 });
    let above = tunables.memory_style(&MemoryType::new(0, Some(2049), false));
    assert_eq!(above, MemoryStyle::Dynamic { offset_guard_size: 256 });
}

#[test]
fn memory_without_maximum_is_static_when_bound_reaches_ceiling() {
    let tunables = Tunables::for_target(&target(PointerWidth::U64, OsCategory::Other));
    let style = tunables.memory_style(&MemoryType::new(1, None, false));
    assert_eq!(style, MemoryStyle::Static { bound: Pages(0x1_0000), offset_guard_size: 0x8000_0000 });
}

#[test]
fn table_style_is_caller_checks_signature() {
    let tunables = Tunables::for_target(&target(PointerWidth::U32, OsCategory::Other));
    for table in [
        TableType::new(ElementKind::FuncRef, 0, None),
        TableType::new(ElementKind::ExternRef, 10, Some(20)),
        TableType::new(ElementKind::FuncRef, u32::MAX, Some(u32::MAX)),
    ] {
        assert_eq!(tunables.table_style(&table), TableStyle::CallerChecksSignature);
    }
}

#[test]
fn for_target_uncapped_defaults() {
    let t16 = Tunables::for_target(&target(PointerWidth::U16, OsCategory::Other));
    assert_eq!(t16.static_memory_bound, Pages(0x400));
    assert_eq!(t16.static_memory_offset_guard_size, 0x1000);
    assert_eq!(t16.dynamic_memory_offset_guard_size, 0x1_0000);
    let t32 = Tunables::for_target(&target(PointerWidth::U32, OsCategory::Other));
    assert_eq!(t32.static_memory_bound, Pages(0x4000));
    assert_eq!(t32.static_memory_offset_guard_size, 0x1_0000);
    assert_eq!(t32.dynamic_memory_offset_guard_size, 0x1_0000);
    let t64 = Tunables::for_target(&target(PointerWidth::U64, OsCategory::Other));
    assert_eq!(t64.static_memory_bound, Pages(0x1_0000));
    assert_eq!(t64.static_memory_offset_guard_size, 0x8000_0000);
    assert_eq!(t64.dynamic_memory_offset_guard_size, 0x1_0000);
}

#[test]
fn for_target_caps_static_layout_on_windows() {
    let t16 = Tunables::for_target(&target(PointerWidth::U16, OsCategory::Windows));
    assert_eq!(t16.static_memory_bound, Pages(0x100));
    assert_eq!(t16.static_memory_offset_guard_size, 0x1000);
    let t32 = Tunables::for_target(&target(PointerWidth::U32, OsCategory::Windows));
    assert_eq!(t32.static_memory_bound, Pages(0x100));
    assert_eq!(t32.static_memory_offset_guard_size, 0x1_0000);
    let t64 = Tunables::for_target(&target(PointerWidth::U64, OsCategory::Windows));
    assert_eq!(t64.static_memory_bound, Pages(0x100));
    assert_eq!(t64.static_memory_offset_guard_size, 0x1_0000);
    assert_eq!(t64.dynamic_memory_offset_guard_size, 0x1_0000);
}

#[test]
fn target_from_triple() {
    let windows = Triple::from_str("x86_64-pc-windows-msvc").unwrap();
    assert_eq!(
        Target::from_triple(&windows),
        Some(target(PointerWidth::U64, OsCategory::Windows))
    );
    let linux = Triple::from_str("i686-unknown-linux-gnu").unwrap();
    assert_eq!(
        Target::from_triple(&linux),
        Some(target(PointerWidth::U32, OsCategory::Other))
    );
    let avr = Triple::from_str("avr-unknown-unknown").unwrap();
    assert_eq!(
        Target::from_triple(&avr),
        Some(target(PointerWidth::U16, OsCategory::Other))
    );
    assert_eq!(Target::from_triple(&Triple::unknown()), None);
}

#[test]
fn pages_max_value_is_the_4gib_ceiling() {
    assert_eq!(Pages::max_value(), Pages(0x1_0000));
}

#[test]
fn memory_and_table_types_keep_their_limits() {
    let m = MemoryType::new(2, Some(7), true);
    assert_eq!(m.minimum, Pages(2));
    assert_eq!(m.maximum, Some(Pages(7)));
    assert!(m.shared);
    let t = TableType::new(ElementKind::ExternRef, 4, None);
    assert_eq!(t.ty, ElementKind::ExternRef);
    assert_eq!(t.minimum, 4);
    assert_eq!(t.maximum, None);
}
