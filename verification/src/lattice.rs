//! Laws of the type lattice: subtyping is a preorder with `Never` at the
//! bottom, and a least upper bound, where there is one, is the least of the
//! common supertypes.

use vstd::prelude::*;
use crate::text::{
    name_lt, name_lt_connected, name_lt_irreflexive, name_lt_transitive, text_lt,
};
use crate::types::{
    lub, lub_attrs, merged, names_ascending, names_subset, same_names, subtype, SpecAttribute,
    SpecType, ValidationMode,
};
use crate::validation_errors::LubHelp;

verus! {

/// A name occurs in the ordered union of two lists exactly if it occurs in
/// one of them.
pub proof fn merged_contains(x: Seq<Seq<char>>, y: Seq<Seq<char>>, s: Seq<char>)
    ensures
        merged(x, y).contains(s) <==> x.contains(s) || y.contains(s),
    decreases x.len() + y.len(),
{
    if x.len() == 0 || y.len() == 0 {
        if x.len() == 0 {
            assert(!x.contains(s));
        } else {
            assert(!y.contains(s));
        }
    } else {
        let xs = x.drop_first();
        let ys = y.drop_first();
        assert(x =~= seq![x[0]] + xs);
        assert(y =~= seq![y[0]] + ys);
        let (head, rest) = if x[0] == y[0] {
            merged_contains(xs, ys, s);
            (x[0], merged(xs, ys))
        } else if name_lt(x[0], y[0]) {
            merged_contains(xs, y, s);
            (x[0], merged(xs, y))
        } else {
            merged_contains(x, ys, s);
            (y[0], merged(x, ys))
        };
        let m = merged(x, y);
        assert(m =~= seq![head] + rest);
        assert(m[0] == head);
        assert(forall|i: int| 0 <= i < rest.len() ==> m[i + 1] == rest[i]);
        assert(forall|i: int| 0 <= i < xs.len() ==> x[i + 1] == xs[i]);
        assert(forall|i: int| 0 <= i < ys.len() ==> y[i + 1] == ys[i]);
        if m.contains(s) {
            let i = choose|i: int| 0 <= i < m.len() && m[i] == s;
            if i > 0 {
                assert(rest[i - 1] == s);
                assert(rest.contains(s));
                if xs.contains(s) {
                    let k = choose|k: int| 0 <= k < xs.len() && xs[k] == s;
                    assert(x[k + 1] == s);
                }
                if ys.contains(s) {
                    let k = choose|k: int| 0 <= k < ys.len() && ys[k] == s;
                    assert(y[k + 1] == s);
                }
            } else {
                assert(x[0] == s || y[0] == s);
            }
        }
        if x.contains(s) || y.contains(s) {
            if s == head {
                assert(m[0] == s);
            } else {
                if x.contains(s) {
                    let k = choose|k: int| 0 <= k < x.len() && x[k] == s;
                    if k > 0 {
                        assert(xs[k - 1] == s);
                        assert(xs.contains(s));
                    }
                }
                if y.contains(s) {
                    let k = choose|k: int| 0 <= k < y.len() && y[k] == s;
                    if k > 0 {
                        assert(ys[k - 1] == s);
                        assert(ys.contains(s));
                    }
                }
                assert(rest.contains(s));
                let i = choose|i: int| 0 <= i < rest.len() && rest[i] == s;
                assert(m[i + 1] == s);
            }
        }
    }
}

/// What a successful attribute-wise least upper bound looks like: one
/// attribute per pair, under the pair's name and optionality, typed by the
/// pair's least upper bound.
pub proof fn lub_attrs_shape(
    aa: Seq<SpecAttribute>,
    ba: Seq<SpecAttribute>,
    mode: ValidationMode,
    n: nat,
)
    requires
        n <= aa.len(),
        n <= ba.len(),
        lub_attrs(aa, ba, mode, n) is Ok,
    ensures
        lub_attrs(aa, ba, mode, n)->Ok_0.len() == n,
        forall|i: int|
            0 <= i < n ==> {
                let r = #[trigger] lub_attrs(aa, ba, mode, n)->Ok_0[i];
                &&& r.name == aa[i].name
                &&& r.required == aa[i].required
                &&& r.required == ba[i].required
                &&& lub(aa[i].ty, ba[i].ty, mode) == Ok::<SpecType, crate::validation_errors::LubHelp>(r.ty)
            },
    decreases n,
{
    if n > 0 {
        lub_attrs_shape(aa, ba, mode, (n - 1) as nat);
    }
}

/// Every type is a subtype of itself.
pub proof fn subtype_reflexive(t: SpecType, mode: ValidationMode)
    ensures
        subtype(t, t, mode),
    decreases t,
{
    match t {
        SpecType::SetOf(x) => {
            subtype_reflexive(*x, mode);
        },
        SpecType::Record { attrs, open } => {
            assert forall|i: int| 0 <= i < attrs.len() implies subtype(
                (#[trigger] attrs[i]).ty,
                attrs[i].ty,
                mode,
            ) by {
                subtype_reflexive(attrs[i].ty, mode);
            }
        },
        SpecType::Entity(x) => {
            assert(names_subset(x, x));
        },
        SpecType::ActionEntity(x) => {
            assert(names_subset(x, x));
        },
        _ => {},
    }
}

/// Subtyping is transitive.
pub proof fn subtype_transitive(a: SpecType, b: SpecType, c: SpecType, mode: ValidationMode)
    requires
        subtype(a, b, mode),
        subtype(b, c, mode),
    ensures
        subtype(a, c, mode),
    decreases a,
{
    match (a, b, c) {
        (SpecType::SetOf(x), SpecType::SetOf(y), SpecType::SetOf(z)) => {
            subtype_transitive(*x, *y, *z, mode);
        },
        (
            SpecType::Record { attrs: aa, .. },
            SpecType::Record { attrs: ba, .. },
            SpecType::Record { attrs: ca, .. },
        ) => {
            assert forall|i: int| 0 <= i < aa.len() implies {
                &&& (#[trigger] aa[i]).required == ca[i].required
                &&& aa[i].name == ca[i].name
                &&& subtype(aa[i].ty, ca[i].ty, mode)
            } by {
                assert(aa[i].name == ba[i].name);
                assert(ba[i].name == ca[i].name);
                subtype_transitive(aa[i].ty, ba[i].ty, ca[i].ty, mode);
            }
        },
        (SpecType::Entity(x), SpecType::Entity(y), SpecType::Entity(z)) => {
            names_subset_transitive(x, y, z);
        },
        (SpecType::ActionEntity(x), SpecType::ActionEntity(y), SpecType::ActionEntity(z)) => {
            names_subset_transitive(x, y, z);
        },
        _ => {},
    }
}

/// Inclusion of lists of names is transitive.
proof fn names_subset_transitive(x: Seq<Seq<char>>, y: Seq<Seq<char>>, z: Seq<Seq<char>>)
    ensures
        names_subset(x, y) && names_subset(y, z) ==> names_subset(x, z),
{
    if names_subset(x, y) && names_subset(y, z) {
        assert forall|i: int| 0 <= i < x.len() implies z.contains(#[trigger] x[i]) by {
            let j = choose|j: int| 0 <= j < y.len() && y[j] == x[i];
            assert(z.contains(y[j]));
        }
    }
}

/// `Never` is below every type, and joining with it changes nothing.
pub proof fn never_is_bottom(t: SpecType, mode: ValidationMode)
    ensures
        subtype(SpecType::Never, t, mode),
        lub(SpecType::Never, t, mode) == Ok::<SpecType, crate::validation_errors::LubHelp>(t),
        lub(t, SpecType::Never, mode) == Ok::<SpecType, crate::validation_errors::LubHelp>(t),
{
}

/// A least upper bound is an upper bound of both types.
pub proof fn lub_is_upper_bound(a: SpecType, b: SpecType, mode: ValidationMode)
    requires
        lub(a, b, mode) is Ok,
    ensures
        subtype(a, lub(a, b, mode)->Ok_0, mode),
        subtype(b, lub(a, b, mode)->Ok_0, mode),
    decreases a,
{
    let t = lub(a, b, mode)->Ok_0;
    if a is Never || b is Never {
        subtype_reflexive(a, mode);
        subtype_reflexive(b, mode);
    } else {
        match (a, b) {
            (SpecType::SetOf(x), SpecType::SetOf(y)) => {
                lub_is_upper_bound(*x, *y, mode);
            },
            (SpecType::Record { attrs: aa, .. }, SpecType::Record { attrs: ba, .. }) => {
                lub_attrs_shape(aa, ba, mode, aa.len());
                let ta = lub_attrs(aa, ba, mode, aa.len())->Ok_0;
                assert forall|i: int| 0 <= i < aa.len() implies {
                    &&& subtype((#[trigger] aa[i]).ty, ta[i].ty, mode)
                    &&& subtype(ba[i].ty, ta[i].ty, mode)
                } by {
                    assert(lub(aa[i].ty, ba[i].ty, mode) == Ok::<
                        SpecType,
                        crate::validation_errors::LubHelp,
                    >(ta[i].ty));
                    lub_is_upper_bound(aa[i].ty, ba[i].ty, mode);
                }
                assert(same_names(aa, ta));
                assert(same_names(ba, ta));
            },
            (SpecType::Entity(x), SpecType::Entity(y)) => {
                merged_is_upper_bound(x, y);
            },
            (SpecType::ActionEntity(x), SpecType::ActionEntity(y)) => {
                merged_is_upper_bound(x, y);
            },
            _ => {},
        }
    }
}

/// The ordered union of two lists holds the names of both.
proof fn merged_is_upper_bound(x: Seq<Seq<char>>, y: Seq<Seq<char>>)
    ensures
        names_subset(x, merged(x, y)),
        names_subset(y, merged(x, y)),
{
    assert forall|i: int| 0 <= i < x.len() implies merged(x, y).contains(#[trigger] x[i]) by {
        merged_contains(x, y, x[i]);
    }
    assert forall|i: int| 0 <= i < y.len() implies merged(x, y).contains(#[trigger] y[i]) by {
        merged_contains(x, y, y[i]);
    }
}

/// The ordered union of two lists is within every list that holds the names
/// of both.
proof fn merged_is_least(x: Seq<Seq<char>>, y: Seq<Seq<char>>, z: Seq<Seq<char>>)
    requires
        names_subset(x, z),
        names_subset(y, z),
    ensures
        names_subset(merged(x, y), z),
{
    let m = merged(x, y);
    assert forall|i: int| 0 <= i < m.len() implies z.contains(#[trigger] m[i]) by {
        merged_contains(x, y, m[i]);
        if x.contains(m[i]) {
            let k = choose|k: int| 0 <= k < x.len() && x[k] == m[i];
            assert(z.contains(x[k]));
        } else {
            let k = choose|k: int| 0 <= k < y.len() && y[k] == m[i];
            assert(z.contains(y[k]));
        }
    }
}

/// A least upper bound is below every common supertype.
pub proof fn lub_is_least(a: SpecType, b: SpecType, u: SpecType, mode: ValidationMode)
    requires
        lub(a, b, mode) is Ok,
        subtype(a, u, mode),
        subtype(b, u, mode),
    ensures
        subtype(lub(a, b, mode)->Ok_0, u, mode),
    decreases a,
{
    if a is Never || b is Never {
    } else {
        match (a, b, u) {
            (SpecType::SetOf(x), SpecType::SetOf(y), SpecType::SetOf(z)) => {
                lub_is_least(*x, *y, *z, mode);
            },
            (
                SpecType::Record { attrs: aa, .. },
                SpecType::Record { attrs: ba, .. },
                SpecType::Record { attrs: ua, .. },
            ) => {
                lub_attrs_shape(aa, ba, mode, aa.len());
                let ta = lub_attrs(aa, ba, mode, aa.len())->Ok_0;
                assert forall|i: int| 0 <= i < ta.len() implies {
                    &&& (#[trigger] ta[i]).required == ua[i].required
                    &&& ta[i].name == ua[i].name
                    &&& subtype(ta[i].ty, ua[i].ty, mode)
                } by {
                    assert(aa[i].name == ua[i].name);
                    assert(lub(aa[i].ty, ba[i].ty, mode) == Ok::<
                        SpecType,
                        crate::validation_errors::LubHelp,
                    >(ta[i].ty));
                    lub_is_least(aa[i].ty, ba[i].ty, ua[i].ty, mode);
                }
            },
            (SpecType::Entity(x), SpecType::Entity(y), SpecType::Entity(z)) => {
                if mode == ValidationMode::Permissive {
                    merged_is_least(x, y, z);
                }
            },
            (SpecType::ActionEntity(x), SpecType::ActionEntity(y), SpecType::ActionEntity(z)) => {
                if mode == ValidationMode::Permissive {
                    merged_is_least(x, y, z);
                }
            },
            _ => {},
        }
    }
}

/// The ordered union of two ascending lists of names is ascending.
pub proof fn merged_ascending(x: Seq<Seq<char>>, y: Seq<Seq<char>>)
    requires
        names_ascending(x),
        names_ascending(y),
    ensures
        names_ascending(merged(x, y)),
    decreases x.len() + y.len(),
{
    if x.len() == 0 || y.len() == 0 {
    } else {
        let xs = x.drop_first();
        let ys = y.drop_first();
        assert(names_ascending(xs)) by {
            assert forall|i: int, j: int| 0 <= i < j < xs.len() implies name_lt(
                #[trigger] xs[i],
                #[trigger] xs[j],
            ) by {
                assert(xs[i] == x[i + 1] && xs[j] == x[j + 1]);
            }
        }
        assert(names_ascending(ys)) by {
            assert forall|i: int, j: int| 0 <= i < j < ys.len() implies name_lt(
                #[trigger] ys[i],
                #[trigger] ys[j],
            ) by {
                assert(ys[i] == y[i + 1] && ys[j] == y[j + 1]);
            }
        }
        let same = x[0] == y[0];
        let first = name_lt(x[0], y[0]);
        let head = if same || first {
            x[0]
        } else {
            y[0]
        };
        let ra = if same || first {
            xs
        } else {
            x
        };
        let rb = if same || !first {
            ys
        } else {
            y
        };
        let rest = merged(ra, rb);
        merged_ascending(ra, rb);
        name_lt_connected(x[0], y[0]);
        assert forall|k: int| 0 <= k < ra.len() implies name_lt(head, #[trigger] ra[k]) by {
            if same || first {
                assert(ra[k] == x[k + 1]);
                assert(name_lt(x[0], x[k + 1]));
            } else {
                if k > 0 {
                    assert(name_lt(x[0], x[k]));
                    name_lt_transitive(y[0], x[0], x[k]);
                }
            }
        }
        assert forall|k: int| 0 <= k < rb.len() implies name_lt(head, #[trigger] rb[k]) by {
            if same || !first {
                assert(rb[k] == y[k + 1]);
                assert(name_lt(y[0], y[k + 1]));
            } else {
                if k > 0 {
                    assert(name_lt(y[0], y[k]));
                    name_lt_transitive(x[0], y[0], y[k]);
                }
            }
        }
        assert forall|k: int| 0 <= k < rest.len() implies name_lt(head, #[trigger] rest[k]) by {
            merged_contains(ra, rb, rest[k]);
            if ra.contains(rest[k]) {
                let i = choose|i: int| 0 <= i < ra.len() && ra[i] == rest[k];
                assert(name_lt(head, ra[i]));
            } else {
                let i = choose|i: int| 0 <= i < rb.len() && rb[i] == rest[k];
                assert(name_lt(head, rb[i]));
            }
        }
        let m = merged(x, y);
        assert(m =~= seq![head] + rest);
        assert forall|i: int, j: int| 0 <= i < j < m.len() implies name_lt(
            #[trigger] m[i],
            #[trigger] m[j],
        ) by {
            assert(m[j] == rest[j - 1]);
            if i > 0 {
                assert(m[i] == rest[i - 1]);
            }
        }
    }
}

/// The least upper bound of types in canonical form is in canonical form.
pub proof fn lub_wf(a: SpecType, b: SpecType, mode: ValidationMode)
    requires
        a.wf(),
        b.wf(),
        lub(a, b, mode) is Ok,
    ensures
        lub(a, b, mode)->Ok_0.wf(),
    decreases a,
{
    if a is Never || b is Never {
    } else {
        match (a, b) {
            (SpecType::SetOf(x), SpecType::SetOf(y)) => {
                lub_wf(*x, *y, mode);
            },
            (SpecType::Record { attrs: aa, .. }, SpecType::Record { attrs: ba, .. }) => {
                lub_attrs_shape(aa, ba, mode, aa.len());
                let ta = lub_attrs(aa, ba, mode, aa.len())->Ok_0;
                assert forall|i: int| 0 <= i < ta.len() implies (#[trigger] ta[i]).ty.wf() by {
                    assert(aa[i].ty.wf());
                    assert(ba[i].ty.wf());
                    assert(lub(aa[i].ty, ba[i].ty, mode) == Ok::<
                        SpecType,
                        crate::validation_errors::LubHelp,
                    >(ta[i].ty));
                    lub_wf(aa[i].ty, ba[i].ty, mode);
                }
                assert forall|i: int, j: int| 0 <= i < j < ta.len() implies text_lt(
                    (#[trigger] ta[i]).name,
                    (#[trigger] ta[j]).name,
                ) by {
                    assert(ta[i].name == aa[i].name);
                    assert(ta[j].name == aa[j].name);
                }
            },
            (SpecType::Entity(x), SpecType::Entity(y)) => {
                merged_ascending(x, y);
                merged_contains(x, y, x[0]);
            },
            (SpecType::ActionEntity(x), SpecType::ActionEntity(y)) => {
                merged_ascending(x, y);
                merged_contains(x, y, x[0]);
            },
            _ => {},
        }
    }
}

/// The ordered union of an ascending list of names with an ascending list
/// that holds them all is that list.
pub proof fn merged_with_superset(x: Seq<Seq<char>>, y: Seq<Seq<char>>)
    requires
        names_ascending(x),
        names_ascending(y),
        names_subset(x, y),
    ensures
        merged(x, y) == y,
    decreases x.len() + y.len(),
{
    if x.len() == 0 {
    } else {
        assert(y.contains(x[0]));
        let at = choose|k: int| 0 <= k < y.len() && y[k] == x[0];
        let xs = x.drop_first();
        let ys = y.drop_first();
        assert(names_ascending(xs)) by {
            assert forall|i: int, j: int| 0 <= i < j < xs.len() implies name_lt(
                #[trigger] xs[i],
                #[trigger] xs[j],
            ) by {
                assert(xs[i] == x[i + 1] && xs[j] == x[j + 1]);
            }
        }
        assert(names_ascending(ys)) by {
            assert forall|i: int, j: int| 0 <= i < j < ys.len() implies name_lt(
                #[trigger] ys[i],
                #[trigger] ys[j],
            ) by {
                assert(ys[i] == y[i + 1] && ys[j] == y[j + 1]);
            }
        }
        name_lt_irreflexive(x[0]);
        name_lt_irreflexive(y[0]);
        if x[0] == y[0] {
            assert forall|i: int| 0 <= i < xs.len() implies ys.contains(#[trigger] xs[i]) by {
                assert(xs[i] == x[i + 1]);
                assert(y.contains(x[i + 1]));
                let k = choose|k: int| 0 <= k < y.len() && y[k] == x[i + 1];
                assert(name_lt(x[0], x[i + 1]));
                assert(k != 0);
                assert(ys[k - 1] == xs[i]);
            }
            merged_with_superset(xs, ys);
            assert(merged(x, y) =~= y);
        } else if name_lt(x[0], y[0]) {
            assert(at > 0);
            assert(name_lt(y[0], y[at]));
            name_lt_transitive(x[0], y[0], y[at]);
        } else {
            name_lt_connected(x[0], y[0]);
            assert forall|i: int| 0 <= i < x.len() implies ys.contains(#[trigger] x[i]) by {
                assert(y.contains(x[i]));
                let k = choose|k: int| 0 <= k < y.len() && y[k] == x[i];
                if i > 0 {
                    assert(name_lt(x[0], x[i]));
                    name_lt_transitive(y[0], x[0], x[i]);
                }
                name_lt_irreflexive(x[i]);
                assert(k != 0);
                assert(ys[k - 1] == x[i]);
            }
            merged_with_superset(x, ys);
            assert(merged(x, y) =~= y);
        }
    }
}

/// Among types in canonical form, one is a subtype of another exactly if
/// the other is the least upper bound of the two.
pub proof fn subtype_is_lub(a: SpecType, b: SpecType, mode: ValidationMode)
    requires
        a.wf(),
        b.wf(),
    ensures
        subtype(a, b, mode) <==> lub(a, b, mode) == Ok::<SpecType, LubHelp>(b),
    decreases a,
{
    if lub(a, b, mode) == Ok::<SpecType, LubHelp>(b) {
        lub_is_upper_bound(a, b, mode);
    }
    if subtype(a, b, mode) {
        subtype_gives_lub(a, b, mode);
    }
}

/// Among types in canonical form, the least upper bound of a type and one of
/// its supertypes is the supertype.
proof fn subtype_gives_lub(a: SpecType, b: SpecType, mode: ValidationMode)
    requires
        a.wf(),
        b.wf(),
        subtype(a, b, mode),
    ensures
        lub(a, b, mode) == Ok::<SpecType, LubHelp>(b),
    decreases a,
{
    match (a, b) {
        (SpecType::SetOf(x), SpecType::SetOf(y)) => {
            subtype_gives_lub(*x, *y, mode);
        },
        (SpecType::Record { attrs: aa, .. }, SpecType::Record { attrs: ba, .. }) => {
            attrs_give_lub(aa, ba, mode, aa.len());
            let ta = lub_attrs(aa, ba, mode, aa.len())->Ok_0;
            assert(ta =~= ba);
        },
        (SpecType::Entity(x), SpecType::Entity(y)) => {
            if mode == ValidationMode::Permissive {
                merged_with_superset(x, y);
            }
        },
        (SpecType::ActionEntity(x), SpecType::ActionEntity(y)) => {
            if mode == ValidationMode::Permissive {
                merged_with_superset(x, y);
            }
        },
        _ => {},
    }
}

/// The attribute-wise least upper bound of attributes with those that they
/// are subtypes of is the latter.
proof fn attrs_give_lub(
    aa: Seq<SpecAttribute>,
    ba: Seq<SpecAttribute>,
    mode: ValidationMode,
    n: nat,
)
    requires
        n <= aa.len(),
        same_names(aa, ba),
        forall|i: int| 0 <= i < aa.len() ==> (#[trigger] aa[i]).ty.wf(),
        forall|i: int| 0 <= i < ba.len() ==> (#[trigger] ba[i]).ty.wf(),
        forall|i: int|
            0 <= i < aa.len() ==> (#[trigger] aa[i]).required == ba[i].required && subtype(
                aa[i].ty,
                ba[i].ty,
                mode,
            ),
    ensures
        lub_attrs(aa, ba, mode, n) == Ok::<Seq<SpecAttribute>, LubHelp>(ba.take(n as int)),
    decreases aa, n,
{
    if n == 0 {
        assert(ba.take(0) =~= Seq::<SpecAttribute>::empty());
    } else {
        attrs_give_lub(aa, ba, mode, (n - 1) as nat);
        let x = aa[n - 1];
        let y = ba[n - 1];
        assert(x.ty.wf() && y.ty.wf());
        assert(x.name == y.name);
        subtype_gives_lub(x.ty, y.ty, mode);
        assert(ba.take(n as int) =~= ba.take(n - 1).push(y));
    }
}

} // verus!
