//! The engine boundary: runtimes and contexts as handles.
//!
//! The scripting engine is a black box consumed through a narrow set of
//! operations. The session below owns every engine runtime and context
//! the host has created and hands the host opaque integer handles for
//! them, with exactly one live owner per handle; the engine calls
//! themselves stand behind trusted wrappers. Everything a context can do
//! beyond being created, configured and destroyed runs inside the
//! engine's scoped entry point, which only the unverified glue around
//! this crate drives; it borrows the live values through `runtime_ref`
//! and `context_ref`.

use vstd::prelude::*;

use crate::handles::HandleTable;

verus! {

#[verifier::external_type_specification]
#[verifier::external_body]
pub struct ExRuntime(rquickjs::Runtime);

#[verifier::external_type_specification]
#[verifier::external_body]
pub struct ExContext(rquickjs::Context);

/// Relies on rquickjs::Runtime::new: creates a fresh engine runtime and
/// fails only when the engine cannot allocate one.
#[verifier::external_body]
fn runtime_new() -> (r: Option<rquickjs::Runtime>) {
    rquickjs::Runtime::new().ok()
}

/// Relies on rquickjs::Context::full: creates an execution context with
/// all standard intrinsics, bound to the given runtime, and fails only
/// when the engine cannot allocate one.
#[verifier::external_body]
fn context_full(rt: &rquickjs::Runtime) -> (r: Option<rquickjs::Context>) {
    rquickjs::Context::full(rt).ok()
}

/// Relies on rquickjs::Runtime::set_memory_limit: bounds the memory the
/// runtime will use; zero means unlimited.
#[verifier::external_body]
fn runtime_set_memory_limit(rt: &rquickjs::Runtime, limit: usize) {
    rt.set_memory_limit(limit);
}

/// Relies on rquickjs::Runtime::set_max_stack_size: bounds the stack the
/// runtime will use.
#[verifier::external_body]
fn runtime_set_max_stack_size(rt: &rquickjs::Runtime, limit: usize) {
    rt.set_max_stack_size(limit);
}

/// Owns every runtime and context created over the boundary, keyed by
/// the opaque handles the host holds.
pub struct EngineSession {
    rt_table: HandleTable<rquickjs::Runtime>,
    ctx_table: HandleTable<rquickjs::Context>,
}

impl EngineSession {
    /// The handles of the live runtimes.
    pub closed spec fn runtime_handles(&self) -> Set<u64> {
        self.rt_table@.dom()
    }

    /// The handles of the live contexts.
    pub closed spec fn context_handles(&self) -> Set<u64> {
        self.ctx_table@.dom()
    }

    /// A session with no runtime and no context.
    pub fn new() -> (s: Self)
        ensures
            s.runtime_handles() == Set::<u64>::empty(),
            s.context_handles() == Set::<u64>::empty(),
    {
        EngineSession { rt_table: HandleTable::new(), ctx_table: HandleTable::new() }
    }

    /// Creates a runtime and returns its fresh handle; `None` only when
    /// the engine could not allocate one, leaving the session unchanged.
    pub fn create_runtime(&mut self) -> (r: Option<u64>)
        ensures
            r matches Some(h) ==> !old(self).runtime_handles().contains(h)
                && final(self).runtime_handles() == old(self).runtime_handles().insert(h),
            r is None ==> final(self).runtime_handles() == old(self).runtime_handles(),
            final(self).context_handles() == old(self).context_handles(),
    {
        if self.rt_table.issued_count() == usize::MAX {
            return None;
        }
        match runtime_new() {
            Some(rt) => {
                let h = self.rt_table.box_value(rt);
                Some(h)
            },
            None => None,
        }
    }

    /// Destroys the runtime behind `h`; reports whether `h` was live.
    /// Every context created from it must already be closed.
    pub fn close_runtime(&mut self, h: u64) -> (r: bool)
        ensures
            r == old(self).runtime_handles().contains(h),
            final(self).runtime_handles() == old(self).runtime_handles().remove(h),
            final(self).context_handles() == old(self).context_handles(),
    {
        self.rt_table.close(h)
    }

    /// Bounds the memory of the runtime behind `h`; reports whether `h`
    /// was live. Relies on the engine to enforce the limit; exceeding it
    /// surfaces later as an allocation failure routed through the
    /// exception bridge.
    pub fn set_memory_limit(&self, h: u64, limit: usize) -> (r: bool)
        ensures
            r == self.runtime_handles().contains(h),
    {
        match self.rt_table.get(h) {
            Some(rt) => {
                runtime_set_memory_limit(rt, limit);
                true
            },
            None => false,
        }
    }

    /// Bounds the stack of the runtime behind `h`; reports whether `h`
    /// was live.
    pub fn set_max_stack_size(&self, h: u64, limit: usize) -> (r: bool)
        ensures
            r == self.runtime_handles().contains(h),
    {
        match self.rt_table.get(h) {
            Some(rt) => {
                runtime_set_max_stack_size(rt, limit);
                true
            },
            None => false,
        }
    }

    /// Creates a context on the runtime behind `rt`, returning its fresh
    /// handle. `None` on a stale runtime handle or when the engine could
    /// not allocate, leaving the session unchanged.
    pub fn create_context(&mut self, rt: u64) -> (r: Option<u64>)
        ensures
            r matches Some(h) ==> old(self).runtime_handles().contains(rt)
                && !old(self).context_handles().contains(h)
                && final(self).context_handles() == old(self).context_handles().insert(h),
            r is None ==> final(self).context_handles() == old(self).context_handles(),
            final(self).runtime_handles() == old(self).runtime_handles(),
    {
        if self.ctx_table.issued_count() == usize::MAX {
            return None;
        }
        match self.rt_table.get(rt) {
            Some(runtime) => match context_full(runtime) {
                Some(ctx) => {
                    let h = self.ctx_table.box_value(ctx);
                    Some(h)
                },
                None => None,
            },
            None => None,
        }
    }

    /// Destroys the context behind `h`; reports whether `h` was live.
    /// The host must not hold references to values of this context any
    /// more.
    pub fn close_context(&mut self, h: u64) -> (r: bool)
        ensures
            r == old(self).context_handles().contains(h),
            final(self).context_handles() == old(self).context_handles().remove(h),
            final(self).runtime_handles() == old(self).runtime_handles(),
    {
        self.ctx_table.close(h)
    }

    /// Borrows the live runtime behind `h` for an engine call.
    pub fn runtime_ref(&self, h: u64) -> (r: Option<&rquickjs::Runtime>)
        ensures
            r is Some <==> self.runtime_handles().contains(h),
    {
        self.rt_table.get(h)
    }

    /// Borrows the live context behind `h` for an engine call.
    pub fn context_ref(&self, h: u64) -> (r: Option<&rquickjs::Context>)
        ensures
            r is Some <==> self.context_handles().contains(h),
    {
        self.ctx_table.get(h)
    }
}

} // verus!
