//! Handle lifecycle manager.
//!
//! An owned engine value crosses the host/engine boundary as an opaque
//! integer handle. The table below is the single logical owner of every
//! boxed value: `box_value` issues a fresh handle, `unbox` transfers the
//! value out exactly once, and `rebox` hands a borrowed value back under
//! the same handle so that the boundary entry point never destroys the
//! owning box as a side effect of using it.
//!
//! Handles are never reused: a slot stays burned after its value is
//! unboxed for good, so a stale handle is detected (`unbox` returns
//! `None`) instead of silently denoting a different value.

use vstd::prelude::*;

verus! {

/// Maps opaque integer handles to owned boxed values, with exactly one
/// live value per handle.
pub struct HandleTable<T> {
    slots: Vec<Option<T>>,
}

impl<T> View for HandleTable<T> {
    type V = Map<u64, T>;

    /// The table viewed as a map from live handles to the values they own.
    closed spec fn view(&self) -> Map<u64, T> {
        Map::new(
            |h: u64| h < self.slots@.len() && self.slots@[h as int] is Some,
            |h: u64| self.slots@[h as int]->0,
        )
    }
}

impl<T> HandleTable<T> {
    /// How many handles have ever been issued; handles at or above this
    /// bound were never returned to the host.
    pub closed spec fn issued(&self) -> nat {
        self.slots@.len()
    }

    /// Every live handle has been issued.
    pub proof fn lemma_live_is_issued(&self, h: u64)
        ensures
            self@.contains_key(h) ==> h < self.issued(),
    {
    }

    /// An empty table: no handle has been issued, none is live.
    pub fn new() -> (t: Self)
        ensures
            t@ == Map::<u64, T>::empty(),
            t.issued() == 0,
    {
        let t = HandleTable { slots: Vec::new() };
        proof {
            assert(t@ =~= Map::<u64, T>::empty());
        }
        t
    }

    /// Transfers ownership of `v` into the table and returns the fresh
    /// handle that now stands for it.
    pub fn box_value(&mut self, v: T) -> (h: u64)
        requires
            old(self).issued() < u64::MAX,
        ensures
            h == old(self).issued(),
            !old(self)@.contains_key(h),
            final(self)@ == old(self)@.insert(h, v),
            final(self).issued() == old(self).issued() + 1,
    {
        let h = self.slots.len() as u64;
        self.slots.push(Some(v));
        proof {
            assert(final(self)@ =~= old(self)@.insert(h, v));
        }
        h
    }

    /// Whether `h` currently owns a live value.
    pub fn is_live(&self, h: u64) -> (r: bool)
        ensures
            r == self@.contains_key(h),
    {
        h < self.slots.len() as u64 && self.slots[h as usize].is_some()
    }

    /// How many handles have ever been issued, as a runtime value.
    pub fn issued_count(&self) -> (n: usize)
        ensures
            n == self.issued(),
    {
        self.slots.len()
    }

    /// Borrows the value owned by `h` without transferring ownership;
    /// `None` on a stale or never-issued handle.
    pub fn get(&self, h: u64) -> (r: Option<&T>)
        ensures
            self@.contains_key(h) ==> (r matches Some(v) && *v == self@[h]),
            !self@.contains_key(h) ==> r is None,
    {
        if h < self.slots.len() as u64 {
            match &self.slots[h as usize] {
                Some(v) => Some(v),
                None => None,
            }
        } else {
            None
        }
    }

    /// Transfers the value owned by `h` out of the table. Returns `None`
    /// on a handle that is stale (already unboxed or closed) or was never
    /// issued, so misuse is detected instead of corrupting another entry.
    pub fn unbox(&mut self, h: u64) -> (r: Option<T>)
        ensures
            old(self)@.contains_key(h) ==> r == Some(old(self)@[h]),
            !old(self)@.contains_key(h) ==> r is None,
            final(self)@ == old(self)@.remove(h),
            final(self).issued() == old(self).issued(),
    {
        if h < self.slots.len() as u64 {
            let r = self.slots[h as usize].take();
            proof {
                assert(final(self)@ =~= old(self)@.remove(h));
            }
            r
        } else {
            proof {
                assert(final(self)@ =~= old(self)@.remove(h));
            }
            None
        }
    }

    /// Hands a borrowed value back under the handle it was unboxed from.
    /// The caller must respect the unbox/rebox protocol: `h` was issued
    /// and does not currently own a value.
    pub fn rebox(&mut self, h: u64, v: T)
        requires
            h < old(self).issued(),
            !old(self)@.contains_key(h),
        ensures
            final(self)@ == old(self)@.insert(h, v),
            final(self).issued() == old(self).issued(),
    {
        let n = self.slots.len();
        proof {
            assert(h < n);
        }
        self.slots[h as usize] = Some(v);
        proof {
            assert(final(self)@ =~= old(self)@.insert(h, v));
        }
    }

    /// Destroys the value owned by `h`. Returns whether `h` was live;
    /// closing an already-closed or never-issued handle reports `false`
    /// and changes nothing.
    pub fn close(&mut self, h: u64) -> (r: bool)
        ensures
            r == old(self)@.contains_key(h),
            final(self)@ == old(self)@.remove(h),
            final(self).issued() == old(self).issued(),
    {
        let v = self.unbox(h);
        v.is_some()
    }
}

/// Unboxing a live handle and reboxing the same value restores the table
/// exactly: a boundary entry point that checks a value out and hands it
/// back on every exit path leaves the ownership map unchanged.
pub proof fn lemma_unbox_rebox_restores<T>(m: Map<u64, T>, h: u64)
    requires
        m.contains_key(h),
    ensures
        m.remove(h).insert(h, m[h]) == m,
{
    assert(m.remove(h).insert(h, m[h]) =~= m);
}

/// A closed handle stays dead: after `close(h)` the table maps nothing
/// to `h`, so every later `unbox`, `rebox` precondition or `close` on
/// `h` reports the misuse instead of touching another value.
pub proof fn lemma_close_is_final<T>(m: Map<u64, T>, h: u64)
    ensures
        !m.remove(h).contains_key(h),
{
}

} // verus!
