//! Selector affinity: a handle may be registered with one selector only.
//!
//! The identity of the owning selector is kept in an atomic integer, read and
//! written with sequential consistency. The check and the store are two
//! separate atomic steps, so two threads that associate one handle with two
//! different selectors at the same moment may both pass the check; the
//! descriptor-level registration that follows is then the final arbiter.

use vstd::prelude::*;
use std::sync::atomic::{AtomicUsize, Ordering};

verus! {

/// The selector identity of a handle that no selector owns.
pub const UNASSOCIATED: usize = 0;

/// Why an association was refused.
#[derive(Debug, Clone, Copy, PartialEq, Eq, Structural)]
pub enum AffinityError {
    /// The handle is already registered with the selector `owner`.
    AlreadyRegistered { owner: usize },
}

/// Whether a handle whose selector identity is `current` may be associated
/// with `selector`: it is free, or already owned by that same selector.
pub open spec fn admits(current: usize, selector: usize) -> bool {
    current == UNASSOCIATED || current == selector
}

/// The outcome of associating a handle whose identity is `current` with
/// `selector`: the identity stored afterwards, or the refusal.
pub open spec fn association(current: usize, selector: usize) -> Result<usize, AffinityError> {
    if admits(current, selector) {
        Ok(selector)
    } else {
        Err(AffinityError::AlreadyRegistered { owner: current })
    }
}

/// The selector identity a handle holds after an attempt to associate it
/// with `selector`; a refused attempt changes nothing.
pub open spec fn identity_after(current: usize, selector: usize) -> usize {
    match association(current, selector) {
        Ok(id) => id,
        Err(_) => current,
    }
}

/// Decides an association request from the selector `selector`, whose
/// identity is never `UNASSOCIATED`: the identity to store, or the refusal.
pub fn check_association(current: usize, selector: usize) -> (r: Result<usize, AffinityError>)
    requires
        selector != UNASSOCIATED,
    ensures
        r == association(current, selector),
{
    if current != UNASSOCIATED && current != selector {
        Err(AffinityError::AlreadyRegistered { owner: current })
    } else {
        Ok(selector)
    }
}

/// Associating twice with one selector: when the first attempt succeeds, the
/// second succeeds as well and leaves the stored identity as the first left it.
pub proof fn lemma_associate_idempotent(current: usize, selector: usize)
    requires
        admits(current, selector),
    ensures
        association(current, selector) is Ok,
        association(identity_after(current, selector), selector)
            == association(current, selector),
        identity_after(identity_after(current, selector), selector)
            == identity_after(current, selector),
{
}

/// Associating with selector `a` (a real selector, not `UNASSOCIATED`) and
/// then with a distinct selector `b`: the second attempt is refused, names `a` as the owner, and leaves `a` stored.
pub proof fn lemma_second_selector_refused(current: usize, a: usize, b: usize)
    requires
        admits(current, a),
        a != UNASSOCIATED,
        a != b,
    ensures
        identity_after(current, a) == a,
        association(a, b) == Err::<usize, AffinityError>(AffinityError::AlreadyRegistered { owner: a }),
        identity_after(identity_after(current, a), b) == a,
{
}

/// Once a handle is owned by a selector, no sequence of association attempts
/// moves it to a different one.
pub proof fn lemma_owner_is_pinned(current: usize, selector: usize)
    requires
        current != UNASSOCIATED,
    ensures
        identity_after(current, selector) == current,
{
}

/// The selector-identity field of a handle, shared between threads.
#[derive(Debug)]
pub struct SelectorAffinity {
    id: AtomicUsize,
}

impl SelectorAffinity {
    /// A field that no selector owns.
    pub fn new() -> (r: SelectorAffinity) {
        SelectorAffinity { id: AtomicUsize::new(UNASSOCIATED) }
    }

    /// A field for a duplicate of the handle: it starts with the identity
    /// that this one holds now.
    pub fn inherit(&self) -> (r: SelectorAffinity) {
        SelectorAffinity { id: AtomicUsize::new(self.selector_id()) }
    }

    /// The identity of the owning selector, or `UNASSOCIATED`.
    pub fn selector_id(&self) -> (r: usize) {
        self.id.load(Ordering::SeqCst)
    }

    /// Associates the handle with `selector`, a selector's identity (never
    /// `UNASSOCIATED`), unless another selector owns it.
    /// The identity read from the field decides, as `check_association` does:
    /// a refusal names an owner that is set and is not `selector`, and stores
    /// nothing.
    pub fn associate(&self, selector: usize) -> (r: Result<(), AffinityError>)
        requires
            selector != UNASSOCIATED,
        ensures
            match r {
                Ok(()) => true,
                Err(AffinityError::AlreadyRegistered { owner }) => !admits(owner, selector),
            },
    {
        let current = self.id.load(Ordering::SeqCst);
        match check_association(current, selector) {
            Ok(id) => {
                self.id.store(id, Ordering::SeqCst);
                Ok(())
            },
            Err(e) => Err(e),
        }
    }
}

} // verus!
