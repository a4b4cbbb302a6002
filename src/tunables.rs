//! The addressing-style decisions for one compilation target.

use crate::memory::{MemoryStyle, MemoryType, Pages, TableStyle, TableType, WASM_MAX_PAGES};
use crate::target::{OsCategory, PointerWidth, Target};
use vstd::prelude::*;

verus! {

/// The size of the guard region after a dynamic memory, on every target.
pub const DYNAMIC_MEMORY_OFFSET_GUARD_SIZE: u64 = 0x1_0000;

/// The largest static reservation, in pages, on Windows.
pub const WINDOWS_STATIC_MEMORY_BOUND_CAP: u32 = 0x100;

/// The largest static guard region, in bytes, on Windows.
pub const WINDOWS_STATIC_MEMORY_OFFSET_GUARD_CAP: u64 = 0x1_0000;

/// Tunable parameters for laying out memories and tables.
#[derive(Clone, Copy, Debug, PartialEq, Eq, Structural)]
pub struct Tunables {
    /// For static heaps, the size in wasm pages of the heap protected by
    /// bounds checking.
    pub static_memory_bound: Pages,
    /// The size in bytes of the offset guard for static heaps.
    pub static_memory_offset_guard_size: u64,
    /// The size in bytes of the offset guard for dynamic heaps.
    pub dynamic_memory_offset_guard_size: u64,
}

/// The static reservation (pages) and static guard (bytes) that a pointer
/// width affords, before any operating-system cap.
pub open spec fn static_defaults(width: PointerWidth) -> (u32, u64) {
    match width {
        PointerWidth::U16 => (0x400, 0x1000),
        PointerWidth::U32 => (0x4000, 0x1_0000),
        PointerWidth::U64 => (0x1_0000, 0x8000_0000),
    }
}

/// The tunables of a target: the defaults of its pointer width, capped on
/// Windows, with the fixed dynamic guard.
pub open spec fn tunables_for(target: Target) -> Tunables {
    let (bound, guard) = static_defaults(target.pointer_width);
    match target.operating_system {
        OsCategory::Windows => Tunables {
            static_memory_bound: Pages(
                if bound <= WINDOWS_STATIC_MEMORY_BOUND_CAP {
                    bound
                } else {
                    WINDOWS_STATIC_MEMORY_BOUND_CAP
                },
            ),
            static_memory_offset_guard_size: if guard <= WINDOWS_STATIC_MEMORY_OFFSET_GUARD_CAP {
                guard
            } else {
                WINDOWS_STATIC_MEMORY_OFFSET_GUARD_CAP
            },
            dynamic_memory_offset_guard_size: DYNAMIC_MEMORY_OFFSET_GUARD_SIZE,
        },
        OsCategory::Other => Tunables {
            static_memory_bound: Pages(bound),
            static_memory_offset_guard_size: guard,
            dynamic_memory_offset_guard_size: DYNAMIC_MEMORY_OFFSET_GUARD_SIZE,
        },
    }
}

impl Tunables {
    /// The style these tunables give a memory: static when its effective
    /// maximum fits in the static bound, dynamic otherwise.
    pub open spec fn memory_style_of(self, memory: MemoryType) -> MemoryStyle {
        if memory.effective_maximum() <= self.static_memory_bound.0 {
            MemoryStyle::Static {
                bound: self.static_memory_bound,
                offset_guard_size: self.static_memory_offset_guard_size,
            }
        } else {
            MemoryStyle::Dynamic { offset_guard_size: self.dynamic_memory_offset_guard_size }
        }
    }

    /// The tunables for a specific target.
    pub fn for_target(target: &Target) -> (r: Tunables)
        ensures
            r == tunables_for(*target),
    {
        let (mut static_memory_bound, mut static_memory_offset_guard_size): (Pages, u64) =
            match target.pointer_width {
            PointerWidth::U16 => (Pages(0x400), 0x1000),
            PointerWidth::U32 => (Pages(0x4000), 0x1_0000),
            // A 4 GiB reservation lets every 32-bit offset be checked by the
            // hardware, and a 2 GiB guard lets constant offsets be folded in
            // as aggressively as possible.
            PointerWidth::U64 => (Pages(0x1_0000), 0x8000_0000),
        };
        let dynamic_memory_offset_guard_size: u64 = DYNAMIC_MEMORY_OFFSET_GUARD_SIZE;
        if let OsCategory::Windows = target.operating_system {
            // A smaller footprint, so as not to outstrip the paging file.
            if static_memory_bound.0 > WINDOWS_STATIC_MEMORY_BOUND_CAP {
                static_memory_bound = Pages(WINDOWS_STATIC_MEMORY_BOUND_CAP);
            }
            if static_memory_offset_guard_size > WINDOWS_STATIC_MEMORY_OFFSET_GUARD_CAP {
                static_memory_offset_guard_size = WINDOWS_STATIC_MEMORY_OFFSET_GUARD_CAP;
            }
        }
        Tunables {
            static_memory_bound,
            static_memory_offset_guard_size,
            dynamic_memory_offset_guard_size,
        }
    }

    /// The style of a memory of the given type.
    pub fn memory_style(&self, memory: &MemoryType) -> (r: MemoryStyle)
        ensures
            r == self.memory_style_of(*memory),
            memory.effective_maximum() <= self.static_memory_bound.0 ==> r == (MemoryStyle::Static {
                bound: self.static_memory_bound,
                offset_guard_size: self.static_memory_offset_guard_size,
            }),
            memory.effective_maximum() > self.static_memory_bound.0 ==> r == (MemoryStyle::Dynamic {
                offset_guard_size: self.dynamic_memory_offset_guard_size,
            }),
            memory.maximum is None && self.static_memory_bound.0 < WASM_MAX_PAGES ==> r == (
            MemoryStyle::Dynamic { offset_guard_size: self.dynamic_memory_offset_guard_size }),
    {
        // Without a declared maximum the memory may grow to the full 4 GiB.
        let maximum = match memory.maximum {
            Some(m) => m,
            None => Pages::max_value(),
        };
        if maximum.0 <= self.static_memory_bound.0 {
            // The bound may exceed the maximum: the reservation is not committed.
            MemoryStyle::Static {
                bound: self.static_memory_bound,
                offset_guard_size: self.static_memory_offset_guard_size,
            }
        } else {
            MemoryStyle::Dynamic { offset_guard_size: self.dynamic_memory_offset_guard_size }
        }
    }

    /// The style of a table of the given type: every table leaves the
    /// signature check to the call site.
    pub fn table_style(&self, table: &TableType) -> (r: TableStyle)
        ensures
            r == TableStyle::CallerChecksSignature,
    {
        TableStyle::CallerChecksSignature
    }
}

/// On Windows the static reservation is capped at 0x100 pages and the
/// static guard at 0x10000 bytes, whatever the pointer width; on any other
/// operating system the same width keeps its uncapped defaults.
pub proof fn lemma_windows_caps_static_layout(width: PointerWidth)
    ensures
        tunables_for((Target { pointer_width: width, operating_system: OsCategory::Windows })).static_memory_bound.0
            <= WINDOWS_STATIC_MEMORY_BOUND_CAP,
        tunables_for((Target { pointer_width: width, operating_system: OsCategory::Windows })).static_memory_offset_guard_size
            <= WINDOWS_STATIC_MEMORY_OFFSET_GUARD_CAP,
        tunables_for((Target { pointer_width: width, operating_system: OsCategory::Other })).static_memory_bound.0
            == static_defaults(width).0,
        tunables_for((Target { pointer_width: width, operating_system: OsCategory::Other })).static_memory_offset_guard_size
            == static_defaults(width).1,
{
}

} // verus!
