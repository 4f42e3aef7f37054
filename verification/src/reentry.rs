//! The reentrancy context stack.
//!
//! The engine's own way of entering a context is not reentrant-safe: when
//! script code calls back into the host and the host re-enters the same
//! context on the same thread, asking the engine for a second scope would
//! corrupt its guard. The per-thread stack below records which contexts
//! already have an active scope on the current call chain; a nested entry
//! finds the existing entry and reuses its scope index instead of opening
//! a new one, and a balanced exit restores the stack exactly.

use vstd::prelude::*;

verus! {

/// One active scope on the current thread: which context it belongs to
/// and the index under which the open scope can be found again.
#[derive(Clone, Copy, Debug, PartialEq, Eq, Structural)]
pub struct ScopeEntry {
    /// A stable identity of the context (in this bridge: its handle).
    pub context_id: u64,
    /// The scope the engine handed out when the context was entered.
    pub scope: u64,
}

/// The per-thread stack of contexts with an active scope. No
/// synchronization is needed: each thread owns its own stack.
pub struct ReentryStack {
    entries: Vec<ScopeEntry>,
}

impl View for ReentryStack {
    type V = Seq<ScopeEntry>;

    closed spec fn view(&self) -> Seq<ScopeEntry> {
        self.entries@
    }
}

/// Whether some entry of `s` belongs to the context `id`.
pub open spec fn has_context(s: Seq<ScopeEntry>, id: u64) -> bool {
    exists|i: int| 0 <= i < s.len() && s[i].context_id == id
}

/// The scope of the innermost (topmost) entry of `s` for context `id`.
pub open spec fn innermost_scope(s: Seq<ScopeEntry>, id: u64) -> Option<u64>
    decreases s.len(),
{
    if s.len() == 0 {
        None
    } else if s.last().context_id == id {
        Some(s.last().scope)
    } else {
        innermost_scope(s.drop_last(), id)
    }
}

impl ReentryStack {
    /// A fresh thread starts with no active scope.
    pub fn new() -> (s: Self)
        ensures
            s@ == Seq::<ScopeEntry>::empty(),
    {
        ReentryStack { entries: Vec::new() }
    }

    /// How many scopes are active on this thread.
    pub fn depth(&self) -> (n: usize)
        ensures
            n == self@.len(),
    {
        self.entries.len()
    }

    /// Looks for an active scope of context `id` on this call chain:
    /// the innermost one wins, and `None` means the caller must open a
    /// new scope and push it.
    pub fn find_active(&self, id: u64) -> (r: Option<u64>)
        ensures
            r == innermost_scope(self@, id),
            r is Some <==> has_context(self@, id),
    {
        proof {
            lemma_innermost_scope_has_context(self@, id);
        }
        let mut i: usize = self.entries.len();
        proof {
            assert(self@.take(i as int) =~= self@);
        }
        while i > 0
            invariant
                i <= self@.len(),
                innermost_scope(self@, id) == innermost_scope(self@.take(i as int), id),
            decreases i,
        {
            i = i - 1;
            let e = self.entries[i];
            proof {
                assert(self@.take(i + 1 as int).drop_last() =~= self@.take(i as int));
                assert(self@.take(i + 1 as int).last() == self@[i as int]);
            }
            if e.context_id == id {
                return Some(e.scope);
            }
        }
        proof {
            assert(self@.take(0) =~= Seq::<ScopeEntry>::empty());
        }
        None
    }

    /// Records that a new scope was opened for context `id` on this
    /// thread; the entry stays until the matching `pop_scope`.
    pub fn push_scope(&mut self, id: u64, scope: u64)
        ensures
            final(self)@ == old(self)@.push(ScopeEntry { context_id: id, scope }),
    {
        self.entries.push(ScopeEntry { context_id: id, scope });
    }

    /// Removes the innermost active scope, on every exit path of the
    /// boundary entry point that pushed it; returns the removed entry.
    pub fn pop_scope(&mut self) -> (r: Option<ScopeEntry>)
        ensures
            old(self)@.len() == 0 ==> r is None && final(self)@ == old(self)@,
            old(self)@.len() > 0 ==> r == Some(old(self)@.last()) && final(self)@ == old(
                self,
            )@.drop_last(),
    {
        let r = self.entries.pop();
        proof {
            if old(self)@.len() > 0 {
                assert(final(self)@ =~= old(self)@.drop_last());
            }
        }
        r
    }
}

pub proof fn lemma_innermost_scope_has_context(s: Seq<ScopeEntry>, id: u64)
    ensures
        innermost_scope(s, id) is Some <==> has_context(s, id),
    decreases s.len(),
{
    if s.len() > 0 {
        lemma_innermost_scope_has_context(s.drop_last(), id);
        if s.last().context_id == id {
            assert(s[s.len() - 1].context_id == id);
        } else if has_context(s, id) {
            let i = choose|i: int| 0 <= i < s.len() && s[i].context_id == id;
            assert(s.drop_last()[i] == s[i]);
        } else if has_context(s.drop_last(), id) {
            let i = choose|i: int| 0 <= i < s.drop_last().len() && s.drop_last()[i].context_id
                == id;
            assert(s[i] == s.drop_last()[i]);
        }
    }
}

/// Reentrancy, structurally: when a context is already active on this
/// thread, entering it again reuses the innermost existing scope and
/// leaves the stack untouched, so the engine is never asked for a second
/// scope for the same context on the same call chain.
pub proof fn lemma_nested_entry_reuses_scope(s: Seq<ScopeEntry>, id: u64)
    requires
        has_context(s, id),
    ensures
        innermost_scope(s, id) is Some,
{
    lemma_innermost_scope_has_context(s, id);
}

/// A balanced entry: opening a scope, working, and popping on the way
/// out restores the stack to exactly what it was, whatever was pushed.
pub proof fn lemma_balanced_entry_restores(s: Seq<ScopeEntry>, e: ScopeEntry)
    ensures
        s.push(e).drop_last() == s,
        s.push(e).last() == e,
{
    assert(s.push(e).drop_last() =~= s);
}

} // verus!
