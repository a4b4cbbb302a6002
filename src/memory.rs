//! Declared types of linear memories and tables, and the addressing styles
//! chosen for them.

use vstd::prelude::*;

verus! {

/// The number of pages that a 32-bit linear memory can address: 4 GiB in
/// pages of 64 KiB. A memory that declares no maximum is treated as
/// reaching this ceiling.
pub const WASM_MAX_PAGES: u32 = 0x10000;

/// A count of WebAssembly pages (64 KiB each).
#[derive(Clone, Copy, Debug, PartialEq, Eq, Structural)]
pub struct Pages(pub u32);

impl Pages {
    /// The implicit ceiling of a memory without a declared maximum.
    pub fn max_value() -> (r: Pages)
        ensures
            r.0 == WASM_MAX_PAGES,
    {
        Pages(WASM_MAX_PAGES)
    }
}

/// A linear memory as a module declares it.
#[derive(Clone, Copy, Debug, PartialEq, Eq, Structural)]
pub struct MemoryType {
    /// The number of pages the memory starts with.
    pub minimum: Pages,
    /// The number of pages the memory may grow to, if the module bounds it.
    pub maximum: Option<Pages>,
    /// Whether the memory may be shared between threads.
    pub shared: bool,
}

impl MemoryType {
    /// A memory type from page counts.
    pub fn new(minimum: u32, maximum: Option<u32>, shared: bool) -> (r: MemoryType)
        ensures
            r.minimum == Pages(minimum),
            r.maximum == (match maximum {
                Some(m) => Some(Pages(m)),
                None => None,
            }),
            r.shared == shared,
    {
        let maximum = match maximum {
            Some(m) => Some(Pages(m)),
            None => None,
        };
        MemoryType { minimum: Pages(minimum), maximum, shared }
    }

    /// The page count that decides the memory's style: its declared
    /// maximum, or the implicit ceiling when it declares none.
    pub open spec fn effective_maximum(self) -> u32 {
        match self.maximum {
            Some(p) => p.0,
            None => WASM_MAX_PAGES,
        }
    }
}

/// The kind of reference a table holds.
#[derive(Clone, Copy, Debug, PartialEq, Eq, Structural)]
pub enum ElementKind {
    FuncRef,
    ExternRef,
}

/// A table as a module declares it.
#[derive(Clone, Copy, Debug, PartialEq, Eq, Structural)]
pub struct TableType {
    /// The kind of its elements.
    pub ty: ElementKind,
    /// The number of elements it starts with.
    pub minimum: u32,
    /// The number of elements it may grow to, if the module bounds it.
    pub maximum: Option<u32>,
}

impl TableType {
    /// A table type from its element kind and limits.
    pub fn new(ty: ElementKind, minimum: u32, maximum: Option<u32>) -> (r: TableType)
        ensures
            r.ty == ty,
            r.minimum == minimum,
            r.maximum == maximum,
    {
        TableType { ty, minimum, maximum }
    }
}

/// How a linear memory is laid out in the host address space.
#[derive(Clone, Copy, Debug, PartialEq, Eq, Structural)]
pub enum MemoryStyle {
    /// The memory may be moved when it grows; every access is bounds-checked.
    Dynamic {
        /// Bytes of trapping guard region after the memory.
        offset_guard_size: u64,
    },
    /// The memory lives in one fixed reservation of `bound` pages, followed
    /// by a trapping guard region, so in-range offsets need no check.
    Static {
        /// The pages reserved (possibly more than the declared maximum).
        bound: Pages,
        /// Bytes of trapping guard region after the reservation.
        offset_guard_size: u64,
    },
}

/// How calls through a table are checked.
#[derive(Clone, Copy, Debug, PartialEq, Eq, Structural)]
pub enum TableStyle {
    /// Each indirect call site checks the callee's signature.
    CallerChecksSignature,
}

} // verus!
