//! Capabilities: what a policy has established, at a point of its control
//! flow, about the presence of optional attributes.

use vstd::prelude::*;
use crate::expr::{shape, Expr, SpecExpr};

verus! {

/// The attribute `attr` is known to be present on the value of the
/// expression of shape `expr`.
#[derive(Debug, PartialEq, Eq, Hash)]
pub struct Capability {
    /// The shape of the expression.
    pub expr: Expr,
    /// The attribute.
    pub attr: String,
}

impl View for Capability {
    type V = (SpecExpr, Seq<char>);

    open spec fn view(&self) -> (SpecExpr, Seq<char>) {
        (self.expr@, self.attr@)
    }
}

impl Clone for Capability {
    fn clone(&self) -> (out: Self)
        ensures
            out@ == self@,
    {
        Capability { expr: self.expr.clone(), attr: self.attr.clone() }
    }
}

/// A set of capabilities.
#[derive(Debug)]
pub struct CapabilitySet {
    pub caps: Vec<Capability>,
}

impl View for CapabilitySet {
    type V = Set<(SpecExpr, Seq<char>)>;

    open spec fn view(&self) -> Set<(SpecExpr, Seq<char>)> {
        Set::new(|c: (SpecExpr, Seq<char>)| exists|i: int| 0 <= i < self.caps@.len() && #[trigger] self.caps@[i]@ == c)
    }
}

impl Clone for CapabilitySet {
    fn clone(&self) -> (out: Self)
        ensures
            out@ == self@,
    {
        let mut caps: Vec<Capability> = Vec::new();
        let mut i: usize = 0;
        while i < self.caps.len()
            invariant
                i <= self.caps.len(),
                caps@.len() == i,
                forall|j: int| 0 <= j < i ==> (#[trigger] caps@[j])@ == self.caps@[j]@,
            decreases self.caps.len() - i,
        {
            caps.push(self.caps[i].clone());
            i += 1;
        }
        let out = CapabilitySet { caps };
        assert(out@ =~= self@) by {
            assert forall|c: (SpecExpr, Seq<char>)| out@.contains(c) <==> self@.contains(c) by {
                if out@.contains(c) {
                    let k = choose|k: int| 0 <= k < out.caps@.len() && #[trigger] out.caps@[k]@ == c;
                    assert(self.caps@[k]@ == c);
                }
                if self@.contains(c) {
                    let k = choose|k: int|
                        0 <= k < self.caps@.len() && #[trigger] self.caps@[k]@ == c;
                    assert(out.caps@[k]@ == c);
                }
            }
        }
        out
    }
}

impl CapabilitySet {
    /// The empty set.
    pub fn new() -> (out: CapabilitySet)
        ensures
            out@ == Set::<(SpecExpr, Seq<char>)>::empty(),
    {
        let out = CapabilitySet { caps: Vec::new() };
        assert(out@ =~= Set::<(SpecExpr, Seq<char>)>::empty());
        out
    }

    /// The set of the one capability that `attr` is present on `expr`.
    pub fn singleton(expr: &Expr, attr: String) -> (out: CapabilitySet)
        ensures
            out@ == Set::<(SpecExpr, Seq<char>)>::empty().insert((shape(expr@), attr@)),
    {
        let mut caps: Vec<Capability> = Vec::new();
        caps.push(Capability { expr: expr.shape_only(), attr });
        let out = CapabilitySet { caps };
        assert(out@ =~= Set::<(SpecExpr, Seq<char>)>::empty().insert((shape(expr@), attr@))) by {
            assert(out.caps@[0]@ == (shape(expr@), attr@));
        }
        out
    }

    /// Whether `cap` is in the set.
    pub fn has(&self, cap: &Capability) -> (found: bool)
        ensures
            found == self@.contains(cap@),
    {
        let mut i: usize = 0;
        while i < self.caps.len()
            invariant
                i <= self.caps.len(),
                forall|j: int| 0 <= j < i ==> (#[trigger] self.caps@[j])@ != cap@,
            decreases self.caps.len() - i,
        {
            if self.caps[i].attr == cap.attr && self.caps[i].expr.same_as(&cap.expr) {
                assert(self.caps@[i as int]@ == cap@);
                return true;
            }
            i += 1;
        }
        false
    }

    /// Whether `attr` is known to be present on `expr`.
    pub fn contains(&self, expr: &Expr, attr: &String) -> (found: bool)
        ensures
            found == self@.contains((shape(expr@), attr@)),
    {
        let cap = Capability { expr: expr.shape_only(), attr: attr.clone() };
        self.has(&cap)
    }

    /// The capabilities of either set.
    pub fn union(&self, other: &CapabilitySet) -> (out: CapabilitySet)
        ensures
            out@ == self@.union(other@),
    {
        let mut caps: Vec<Capability> = Vec::new();
        let mut i: usize = 0;
        while i < self.caps.len()
            invariant
                i <= self.caps.len(),
                caps@.len() == i,
                forall|j: int| 0 <= j < i ==> (#[trigger] caps@[j])@ == self.caps@[j]@,
            decreases self.caps.len() - i,
        {
            caps.push(self.caps[i].clone());
            i += 1;
        }
        let mut k: usize = 0;
        while k < other.caps.len()
            invariant
                k <= other.caps.len(),
                caps@.len() == self.caps@.len() + k,
                forall|j: int|
                    0 <= j < self.caps@.len() ==> (#[trigger] caps@[j])@ == self.caps@[j]@,
                forall|j: int|
                    0 <= j < k ==> (#[trigger] caps@[self.caps@.len() + j])@ == other.caps@[j]@,
            decreases other.caps.len() - k,
        {
            caps.push(other.caps[k].clone());
            k += 1;
        }
        let out = CapabilitySet { caps };
        assert(out@ =~= self@.union(other@)) by {
            let n = self.caps@.len() as int;
            assert forall|c: (SpecExpr, Seq<char>)|
                out@.contains(c) <==> self@.contains(c) || other@.contains(c) by {
                if out@.contains(c) {
                    let j = choose|j: int| 0 <= j < out.caps@.len() && #[trigger] out.caps@[j]@ == c;
                    if j < n {
                        assert(self.caps@[j]@ == c);
                    } else {
                        assert(out.caps@[n + (j - n)]@ == other.caps@[j - n]@);
                        assert(other.caps@[j - n]@ == c);
                    }
                }
                if self@.contains(c) {
                    let j = choose|j: int|
                        0 <= j < self.caps@.len() && #[trigger] self.caps@[j]@ == c;
                    assert(out.caps@[j]@ == c);
                }
                if other@.contains(c) {
                    let j = choose|j: int|
                        0 <= j < other.caps@.len() && #[trigger] other.caps@[j]@ == c;
                    assert(out.caps@[n + j]@ == c);
                }
            }
        }
        out
    }

    /// The capabilities of both sets.
    pub fn intersect(&self, other: &CapabilitySet) -> (out: CapabilitySet)
        ensures
            out@ == self@.intersect(other@),
    {
        let mut caps: Vec<Capability> = Vec::new();
        let mut i: usize = 0;
        while i < self.caps.len()
            invariant
                i <= self.caps.len(),
                forall|j: int|
                    0 <= j < caps@.len() ==> self@.contains((#[trigger] caps@[j])@)
                        && other@.contains(caps@[j]@),
                forall|j: int|
                    0 <= j < i && other@.contains((#[trigger] self.caps@[j])@) ==> exists|k: int|
                        0 <= k < caps@.len() && #[trigger] caps@[k]@ == self.caps@[j]@,
            decreases self.caps.len() - i,
        {
            if other.has(&self.caps[i]) {
                let ghost before = caps@;
                let item = self.caps[i].clone();
                caps.push(item);
                proof {
                    assert(self.caps@[i as int]@ == item@);
                    assert(self@.contains(item@));
                    assert forall|j: int|
                        0 <= j < i + 1 && other@.contains(
                            (#[trigger] self.caps@[j])@,
                        ) implies exists|k: int|
                        0 <= k < caps@.len() && #[trigger] caps@[k]@ == self.caps@[j]@ by {
                        if j < i {
                            let k = choose|k: int|
                                0 <= k < before.len() && #[trigger] before[k]@ == self.caps@[j]@;
                            assert(caps@[k]@ == self.caps@[j]@);
                        } else {
                            assert(caps@[before.len() as int]@ == self.caps@[j]@);
                        }
                    }
                }
            }
            i += 1;
        }
        let out = CapabilitySet { caps };
        assert(out@ =~= self@.intersect(other@)) by {
            assert forall|c: (SpecExpr, Seq<char>)|
                out@.contains(c) <==> self@.contains(c) && other@.contains(c) by {
                if out@.contains(c) {
                    let j = choose|j: int| 0 <= j < out.caps@.len() && #[trigger] out.caps@[j]@ == c;
                    assert(self@.contains(out.caps@[j]@));
                }
                if self@.contains(c) && other@.contains(c) {
                    let j = choose|j: int|
                        0 <= j < self.caps@.len() && #[trigger] self.caps@[j]@ == c;
                    let k = choose|k: int|
                        0 <= k < out.caps@.len() && #[trigger] out.caps@[k]@ == self.caps@[j]@;
                    assert(out.caps@[k]@ == c);
                }
            }
        }
        out
    }
}

} // verus!
