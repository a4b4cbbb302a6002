//! What the layout decisions need to know of a compilation target.

use target_lexicon::Triple;
use vstd::prelude::*;

verus! {

#[verifier::external_type_specification]
#[verifier::external_body]
pub struct ExTriple(Triple);

/// The width of a pointer on the target.
#[derive(Clone, Copy, Debug, PartialEq, Eq, Structural)]
pub enum PointerWidth {
    U16,
    U32,
    U64,
}

/// The operating systems, as far as memory layout tells them apart.
#[derive(Clone, Copy, Debug, PartialEq, Eq, Structural)]
pub enum OsCategory {
    /// Large address-space reservations can grow the paging file here.
    Windows,
    Other,
}

/// A compilation target, reduced to what memory layout depends on.
#[derive(Clone, Copy, Debug, PartialEq, Eq, Structural)]
pub struct Target {
    pub pointer_width: PointerWidth,
    pub operating_system: OsCategory,
}

/// The pointer width of a triple's architecture, if it has one.
pub uninterp spec fn triple_width_of(triple: Triple) -> Option<PointerWidth>;

/// Whether a triple's operating system is Windows.
pub uninterp spec fn triple_os_of(triple: Triple) -> OsCategory;

/// Relies on target_lexicon's `Triple::pointer_width`: the pointer width of
/// the triple's architecture, or an error for an architecture without one.
#[verifier::external_body]
fn triple_pointer_width(triple: &Triple) -> (r: Option<PointerWidth>)
    ensures
        r == triple_width_of(*triple),
{
    match triple.pointer_width() {
        Ok(target_lexicon::PointerWidth::U16) => Some(PointerWidth::U16),
        Ok(target_lexicon::PointerWidth::U32) => Some(PointerWidth::U32),
        Ok(target_lexicon::PointerWidth::U64) => Some(PointerWidth::U64),
        Err(()) => None,
    }
}

/// Relies on target_lexicon's `Triple::operating_system` field: whether it
/// is `OperatingSystem::Windows`.
#[verifier::external_body]
fn triple_os_category(triple: &Triple) -> (r: OsCategory)
    ensures
        r == triple_os_of(*triple),
{
    match triple.operating_system {
        target_lexicon::OperatingSystem::Windows => OsCategory::Windows,
        _ => OsCategory::Other,
    }
}

impl Target {
    /// The target that a target triple describes, or `None` when its
    /// architecture has no pointer width.
    pub fn from_triple(triple: &Triple) -> (r: Option<Target>)
        ensures
            r is Some <==> triple_width_of(*triple) is Some,
            r is Some ==> r.unwrap().pointer_width == triple_width_of(*triple).unwrap()
                && r.unwrap().operating_system == triple_os_of(*triple),
    {
        match triple_pointer_width(triple) {
            Some(pointer_width) => {
                let operating_system = triple_os_category(triple);
                Some(Target { pointer_width, operating_system })
            },
            None => None,
        }
    }
}

} // verus!
