//! A bounded, lazy collector of display strings.
//!
//! Up to a fixed capacity of strings are committed in call order; once an
//! append is attempted at capacity the collector saturates and later appends
//! are dropped without ever invoking their producer closures.

use vstd::prelude::*;

use crate::text::{join_all, spec_join};

verus! {

/// What `SizedSummary::render` returns for committed strings `items` and
/// saturation flag `saturated`: `"Empty"` for none, the bare string for one
/// (even when saturated), and otherwise a bracketed `", "`-joined list with a
/// trailing `", ..."` marker exactly when saturated.
pub open spec fn spec_render(items: Seq<Seq<char>>, saturated: bool) -> Seq<char> {
    if items.len() == 0 {
        "Empty"@
    } else if items.len() == 1 {
        items[0]
    } else {
        "["@ + spec_join(items, ", "@) + (if saturated {
            ", ..."@
        } else {
            Seq::empty()
        }) + "]"@
    }
}

/// Abstract one-append transition on the collector state
/// `(committed length, saturated)` for a given capacity.
pub open spec fn spec_step(len: nat, saturated: bool, capacity: nat) -> (nat, bool) {
    if saturated {
        (len, true)
    } else if len >= capacity {
        (len, true)
    } else {
        ((len + 1) as nat, false)
    }
}

/// The collector state `(committed length, saturated)` reached from a fresh
/// collector of the given capacity after `count` attempted appends.
pub open spec fn spec_after_appends(capacity: nat, count: nat) -> (nat, bool)
    decreases count,
{
    if count == 0 {
        (0, false)
    } else {
        let prev = spec_after_appends(capacity, (count - 1) as nat);
        spec_step(prev.0, prev.1, capacity)
    }
}

/// Law: after `count` attempted appends to a fresh collector of capacity
/// `capacity`, the committed length is `min(count, capacity)` and the
/// collector is saturated exactly when `count > capacity`.
pub proof fn lemma_append_count(capacity: nat, count: nat)
    ensures
        spec_after_appends(capacity, count).0 == if count <= capacity {
            count
        } else {
            capacity
        },
        spec_after_appends(capacity, count).1 == (count > capacity),
    decreases count,
{
    if count > 0 {
        lemma_append_count(capacity, (count - 1) as nat);
    }
}

/// Collects up to `limit` summary strings; further appends saturate the
/// collector and are dropped unevaluated.
pub struct SizedSummary {
    is_full: bool,
    limit: usize,
    data: Vec<String>,
}

impl View for SizedSummary {
    type V = Seq<Seq<char>>;

    closed spec fn view(&self) -> Seq<Seq<char>> {
        self.data@.map_values(|s: String| s@)
    }
}

impl SizedSummary {
    /// The capacity the collector was created with.
    pub closed spec fn spec_capacity(&self) -> nat {
        self.limit as nat
    }

    /// Whether an append has been attempted while the collector was at
    /// capacity; once true it never reverts.
    pub closed spec fn spec_saturated(&self) -> bool {
        self.is_full
    }

    /// The committed strings never exceed the capacity.
    pub open spec fn wf(&self) -> bool {
        self@.len() <= self.spec_capacity()
    }

    pub fn new(limit: usize) -> (r: Self)
        ensures
            r@ == Seq::<Seq<char>>::empty(),
            r.spec_capacity() == limit,
            !r.spec_saturated(),
            r.wf(),
    {
        let r = Self { is_full: false, limit, data: Vec::with_capacity(limit) };
        proof {
            assert(r@ =~= Seq::<Seq<char>>::empty());
        }
        r
    }

    pub fn len(&self) -> (r: usize)
        ensures
            r == self@.len(),
    {
        self.data.len()
    }

    /// Whether the collector has saturated and dropped an append.
    pub fn is_full(&self) -> (r: bool)
        ensures
            r == self.spec_saturated(),
    {
        self.is_full
    }

    /// Commits `generate_msg()` if there is room; at capacity it saturates the
    /// collector instead, and once saturated it does nothing. The producer is
    /// only invoked when its result is committed.
    pub fn append<F: FnOnce() -> String>(&mut self, generate_msg: F)
        requires
            (!old(self).spec_saturated() && old(self)@.len() < old(self).spec_capacity())
                ==> call_requires(generate_msg, ()),
        ensures
            final(self).spec_capacity() == old(self).spec_capacity(),
            ({
                let s = spec_step(
                    old(self)@.len(),
                    old(self).spec_saturated(),
                    old(self).spec_capacity(),
                );
                final(self)@.len() == s.0 && final(self).spec_saturated() == s.1
            }),
            old(self).spec_saturated() || old(self)@.len() >= old(self).spec_capacity()
                ==> final(self)@ == old(self)@,
            (!old(self).spec_saturated() && old(self)@.len() < old(self).spec_capacity()) ==> {
                &&& final(self)@.drop_last() == old(self)@
                &&& exists|s: String|
                    call_ensures(generate_msg, (), s) && final(self)@.last() == s@
            },
    {
        if !self.is_full {
            if self.data.len() >= self.limit {
                self.is_full = true;
            } else {
                let ghost prev = self.data@.map_values(|s: String| s@);
                let msg = generate_msg();
                self.data.push(msg);
                proof {
                    assert(self.data@.map_values(|s: String| s@) =~= prev.push(msg@));
                    assert(self@.drop_last() =~= prev);
                }
            }
        }
    }

    /// Renders the committed strings for display, as `spec_render` states.
    pub fn render(&self) -> (r: String)
        ensures
            r@ == spec_render(self@, self.spec_saturated()),
    {
        if self.data.len() > 1 {
            let mut r = String::from_str("[");
            r.append(join_all(&self.data, ", ").as_str());
            if self.is_full {
                r.append(", ...");
            }
            r.append("]");
            proof {
                if !self.is_full {
                    assert(spec_join(self@, ", "@) + Seq::<char>::empty() =~= spec_join(
                        self@,
                        ", "@,
                    ));
                }
            }
            r
        } else if self.data.is_empty() {
            String::from_str("Empty")
        } else {
            String::from_str(self.data[0].as_str())
        }
    }
}

} // verus!
