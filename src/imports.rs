//! Resolved imports of one instantiation, with the host-function environment
//! initializers that are handed out exactly once.

use vstd::prelude::*;

verus! {

/// The address that stands for "no environment".
pub const NULL_ENV: usize = 0;

/// One imported function's environment initializer, if it has one, and the
/// address of the environment it runs on.
pub type InitializerEntry<I> = (Option<I>, usize);

/// The host-function environment initializers, before and after they have
/// been handed out.
#[derive(Clone)]
pub enum Initializers<I> {
    /// Not handed out yet: one entry per imported function, in index order.
    Available(Vec<InitializerEntry<I>>),
    /// Handed out already; nothing is left.
    Consumed,
}

/// Resolved import addresses, each collection in the declaration order of
/// its kind: the import with index `k` stands at position `k`.
#[derive(Clone)]
pub struct Imports<F, T, M, G, I> {
    /// Resolved addresses for imported functions.
    pub functions: Vec<F>,
    /// Initializers for host function environments. They are kept apart from
    /// `functions` because generated code never reads them, and are dropped
    /// once handed out.
    pub host_function_env_initializers: Initializers<I>,
    /// Resolved addresses for imported tables.
    pub tables: Vec<T>,
    /// Resolved addresses for imported memories.
    pub memories: Vec<M>,
    /// Resolved addresses for imported globals.
    pub globals: Vec<G>,
}

/// What an instance receives for one entry: the initializer, and its
/// environment only when there is an initializer to run on it.
pub open spec fn thunk_of<I>(entry: InitializerEntry<I>) -> InitializerEntry<I> {
    (entry.0, if entry.0 is Some { entry.1 } else { NULL_ENV })
}

impl<F, T, M, G, I> Imports<F, T, M, G, I> {
    /// What the next extraction of initializers hands out.
    pub open spec fn pending_initializers(&self) -> Seq<InitializerEntry<I>> {
        match self.host_function_env_initializers {
            Initializers::Available(v) => v@.map_values(|e: InitializerEntry<I>| thunk_of(e)),
            Initializers::Consumed => seq![],
        }
    }

    /// The same imports with the initializers handed out.
    pub open spec fn consumed(self) -> Self {
        Imports { host_function_env_initializers: Initializers::Consumed, ..self }
    }

    /// Imports from the resolved addresses of each kind and the initializer
    /// entries of the imported functions.
    pub fn new(
        function_imports: Vec<F>,
        host_function_env_initializers: Vec<InitializerEntry<I>>,
        table_imports: Vec<T>,
        memory_imports: Vec<M>,
        global_imports: Vec<G>,
    ) -> (r: Self)
        ensures
            r.functions == function_imports,
            r.host_function_env_initializers == Initializers::Available(
                host_function_env_initializers,
            ),
            r.tables == table_imports,
            r.memories == memory_imports,
            r.globals == global_imports,
    {
        Imports {
            functions: function_imports,
            host_function_env_initializers: Initializers::Available(
                host_function_env_initializers,
            ),
            tables: table_imports,
            memories: memory_imports,
            globals: global_imports,
        }
    }

    /// Imports of a module that imports nothing.
    pub fn none() -> (r: Self)
        ensures
            r.functions@ == Seq::<F>::empty(),
            r.host_function_env_initializers is Available,
            r.pending_initializers() == Seq::<InitializerEntry<I>>::empty(),
            r.tables@ == Seq::<T>::empty(),
            r.memories@ == Seq::<M>::empty(),
            r.globals@ == Seq::<G>::empty(),
    {
        let r = Imports {
            functions: Vec::new(),
            host_function_env_initializers: Initializers::Available(Vec::new()),
            tables: Vec::new(),
            memories: Vec::new(),
            globals: Vec::new(),
        };
        assert(r.pending_initializers() =~= Seq::<InitializerEntry<I>>::empty());
        r
    }

    /// The initializers of the host function environments, with the
    /// environments to run them on, in function index order. The
    /// environment is null wherever there is no initializer.
    ///
    /// The entries are handed out once: afterwards they are dropped, and a
    /// later call returns nothing, so no environment is set up twice.
    pub fn get_import_initializers(&mut self) -> (r: Vec<InitializerEntry<I>>) where I: Copy
        ensures
            r@ == old(self).pending_initializers(),
            *final(self) == old(self).consumed(),
    {
        let mut state = Initializers::Consumed;
        std::mem::swap(&mut state, &mut self.host_function_env_initializers);
        let mut result: Vec<InitializerEntry<I>> = Vec::new();
        if let Initializers::Available(entries) = state {
            let mut k: usize = 0;
            while k < entries.len()
                invariant
                    k <= entries@.len(),
                    result@ == entries@.subrange(0, k as int).map_values(
                        |e: InitializerEntry<I>| thunk_of(e),
                    ),
                decreases entries@.len() - k,
            {
                let (func_init, env_ptr) = entries[k];
                let host_env = if func_init.is_some() {
                    env_ptr
                } else {
                    NULL_ENV
                };
                result.push((func_init, host_env));
                k = k + 1;
                assert(result@ =~= entries@.subrange(0, k as int).map_values(
                    |e: InitializerEntry<I>| thunk_of(e),
                ));
            }
            assert(entries@.subrange(0, k as int) =~= entries@);
        }
        result
    }
}

/// Extracting the initializers twice: the first extraction yields one
/// entry per imported function, in index order, carrying its initializer and
/// a null environment wherever it has none; the second yields nothing.
pub proof fn lemma_initializers_handed_out_once<F, T, M, G, I>(
    imports: Imports<F, T, M, G, I>,
    entries: Seq<InitializerEntry<I>>,
)
    requires
        imports.host_function_env_initializers is Available,
        imports.host_function_env_initializers->Available_0@ == entries,
    ensures
        imports.pending_initializers().len() == entries.len(),
        forall|k: int|
            0 <= k < entries.len() ==> (#[trigger] imports.pending_initializers()[k]).0
                == entries[k].0,
        forall|k: int|
            0 <= k < entries.len() && entries[k].0 is Some ==> (
            #[trigger] imports.pending_initializers()[k]).1 == entries[k].1,
        forall|k: int|
            0 <= k < entries.len() && entries[k].0 is None ==> (
            #[trigger] imports.pending_initializers()[k]).1 == NULL_ENV,
        imports.consumed().pending_initializers() == Seq::<InitializerEntry<I>>::empty(),
{
    assert(imports.consumed().pending_initializers() =~= Seq::<InitializerEntry<I>>::empty());
}

} // verus!
