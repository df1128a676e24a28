//! The order in which types are listed: by kind first, and among types of
//! one kind by their parts. Sets of types are kept as lists that ascend in
//! this order, so that a set of types is one value however it was found.

use vstd::prelude::*;
use crate::text::{
    name_before, name_lt, name_lt_connected, name_lt_irreflexive, name_lt_transitive,
    qualified_before, qualified_lt, qualified_lt_connected, qualified_lt_irreflexive,
    qualified_lt_transitive, str_lt, text_lt, text_lt_connected, text_lt_irreflexive,
    text_lt_transitive,
};
use crate::types::{
    attribute_view, attributes_view, record_view, types_view, AttributeType, SpecAttribute,
    SpecType, Type,
};

verus! {

/// The place of a type's kind among the kinds of type.
pub open spec fn rank(t: SpecType) -> nat {
    match t {
        SpecType::Never => 0,
        SpecType::True => 1,
        SpecType::False => 2,
        SpecType::Boolean => 3,
        SpecType::Long => 4,
        SpecType::String => 5,
        SpecType::SetOf(_) => 6,
        SpecType::Record { .. } => 7,
        SpecType::Entity(_) => 8,
        SpecType::ActionEntity(_) => 9,
        SpecType::AnyEntity => 10,
        SpecType::Extension(_) => 11,
    }
}

/// Whether the attributes of `aa` from the `i`th on come before those of
/// `ba`: where they first differ, `aa` has come to its end, or has the
/// lesser name, or under the same name the lesser type, or with the same
/// type the optional attribute.
pub open spec fn attrs_lt(aa: Seq<SpecAttribute>, ba: Seq<SpecAttribute>, i: nat) -> bool
    decreases aa, aa.len() - i,
{
    if i >= ba.len() {
        false
    } else if i >= aa.len() {
        true
    } else {
        let x = aa[i as int];
        let y = ba[i as int];
        if x.name != y.name {
            text_lt(x.name, y.name)
        } else if x.ty != y.ty {
            type_lt(x.ty, y.ty)
        } else if x.required != y.required {
            !x.required
        } else {
            attrs_lt(aa, ba, i + 1)
        }
    }
}

/// Whether the type `a` comes before the type `b`. The kinds of type come
/// in the order `Never`, `True`, `False`, `Boolean`, `Long`, `String`, sets,
/// records, entities, action entities, `AnyEntity`, extension types. Sets
/// are ordered as their elements are, records by their attributes and then
/// closed before open, entity types by their names and extension types by
/// name, both in the order of qualified names.
pub open spec fn type_lt(a: SpecType, b: SpecType) -> bool
    decreases a, 0nat,
{
    if rank(a) != rank(b) {
        rank(a) < rank(b)
    } else {
        match (a, b) {
            (SpecType::SetOf(x), SpecType::SetOf(y)) => type_lt(*x, *y),
            (SpecType::Record { attrs: aa, open: ao }, SpecType::Record { attrs: ba, open: bo }) => {
                if aa != ba {
                    attrs_lt(aa, ba, 0)
                } else {
                    !ao && bo
                }
            },
            (SpecType::Entity(x), SpecType::Entity(y)) => qualified_lt(x, y, 0),
            (SpecType::ActionEntity(x), SpecType::ActionEntity(y)) => qualified_lt(x, y, 0),
            (SpecType::Extension(n), SpecType::Extension(m)) => name_lt(n, m),
            _ => false,
        }
    }
}

/// No list of attributes comes before itself.
pub proof fn attrs_lt_irreflexive(aa: Seq<SpecAttribute>, i: nat)
    ensures
        !attrs_lt(aa, aa, i),
    decreases aa.len() - i,
{
    if i < aa.len() {
        attrs_lt_irreflexive(aa, i + 1);
    }
}

/// No type comes before itself.
pub proof fn type_lt_irreflexive(a: SpecType)
    ensures
        !type_lt(a, a),
    decreases a,
{
    match a {
        SpecType::SetOf(x) => {
            type_lt_irreflexive(*x);
        },
        SpecType::Entity(x) => {
            qualified_lt_irreflexive(x, 0);
        },
        SpecType::ActionEntity(x) => {
            qualified_lt_irreflexive(x, 0);
        },
        SpecType::Extension(n) => {
            name_lt_irreflexive(n);
        },
        _ => {},
    }
}

/// The order of lists of attributes is transitive.
pub proof fn attrs_lt_transitive(
    aa: Seq<SpecAttribute>,
    ba: Seq<SpecAttribute>,
    ca: Seq<SpecAttribute>,
    i: nat,
)
    requires
        attrs_lt(aa, ba, i),
        attrs_lt(ba, ca, i),
    ensures
        attrs_lt(aa, ca, i),
    decreases aa, aa.len() - i,
{
    if i < aa.len() {
        let (x, y, z) = (aa[i as int], ba[i as int], ca[i as int]);
        text_lt_irreflexive(x.name);
        if x.name != y.name && y.name != z.name {
            text_lt_transitive(x.name, y.name, z.name);
        } else if x.name == y.name && y.name == z.name {
            type_lt_irreflexive(x.ty);
            if x.ty != y.ty && y.ty != z.ty {
                type_lt_transitive(x.ty, y.ty, z.ty);
            } else if x.ty == y.ty && y.ty == z.ty {
                if x.required == y.required && y.required == z.required {
                    attrs_lt_transitive(aa, ba, ca, i + 1);
                }
            }
        }
    }
}

/// The order of types is transitive.
pub proof fn type_lt_transitive(a: SpecType, b: SpecType, c: SpecType)
    requires
        type_lt(a, b),
        type_lt(b, c),
    ensures
        type_lt(a, c),
    decreases a, 0nat,
{
    if rank(a) == rank(b) && rank(b) == rank(c) {
        match (a, b, c) {
            (SpecType::SetOf(x), SpecType::SetOf(y), SpecType::SetOf(z)) => {
                type_lt_transitive(*x, *y, *z);
            },
            (
                SpecType::Record { attrs: aa, .. },
                SpecType::Record { attrs: ba, .. },
                SpecType::Record { attrs: ca, .. },
            ) => {
                attrs_lt_irreflexive(aa, 0);
                if aa != ba && ba != ca {
                    attrs_lt_transitive(aa, ba, ca, 0);
                }
            },
            (SpecType::Entity(x), SpecType::Entity(y), SpecType::Entity(z)) => {
                qualified_lt_transitive(x, y, z, 0);
            },
            (SpecType::ActionEntity(x), SpecType::ActionEntity(y), SpecType::ActionEntity(z)) => {
                qualified_lt_transitive(x, y, z, 0);
            },
            (SpecType::Extension(n), SpecType::Extension(m), SpecType::Extension(k)) => {
                name_lt_transitive(n, m, k);
            },
            _ => {},
        }
    }
}

/// Of two lists of attributes that agree before the `i`th and differ, one
/// comes before the other from the `i`th on.
pub proof fn attrs_lt_connected(aa: Seq<SpecAttribute>, ba: Seq<SpecAttribute>, i: nat)
    requires
        aa != ba,
        i <= aa.len(),
        i <= ba.len(),
        forall|k: int| 0 <= k < i ==> aa[k] == ba[k],
    ensures
        attrs_lt(aa, ba, i) || attrs_lt(ba, aa, i),
    decreases aa, aa.len() + ba.len() - i,
{
    if i >= aa.len() && i >= ba.len() {
        assert(aa =~= ba);
    } else if i < aa.len() && i < ba.len() {
        let (x, y) = (aa[i as int], ba[i as int]);
        if x.name != y.name {
            text_lt_connected(x.name, y.name);
        } else if x.ty != y.ty {
            type_lt_connected(x.ty, y.ty);
        } else if x.required == y.required {
            attrs_lt_connected(aa, ba, i + 1);
        }
    }
}

/// Of two different types one comes before the other.
pub proof fn type_lt_connected(a: SpecType, b: SpecType)
    ensures
        a == b || type_lt(a, b) || type_lt(b, a),
    decreases a, 0nat,
{
    if a != b && rank(a) == rank(b) {
        match (a, b) {
            (SpecType::SetOf(x), SpecType::SetOf(y)) => {
                type_lt_connected(*x, *y);
            },
            (SpecType::Record { attrs: aa, .. }, SpecType::Record { attrs: ba, .. }) => {
                if aa != ba {
                    attrs_lt_connected(aa, ba, 0);
                }
            },
            (SpecType::Entity(x), SpecType::Entity(y)) => {
                qualified_lt_connected(x, y, 0);
            },
            (SpecType::ActionEntity(x), SpecType::ActionEntity(y)) => {
                qualified_lt_connected(x, y, 0);
            },
            (SpecType::Extension(n), SpecType::Extension(m)) => {
                name_lt_connected(n, m);
            },
            _ => {},
        }
    }
}

/// The types ascend: each comes before all that follow it.
pub open spec fn types_ascending(types: Seq<SpecType>) -> bool {
    forall|i: int, j: int|
        0 <= i < j < types.len() ==> type_lt(#[trigger] types[i], #[trigger] types[j])
}

/// The list holds no type twice.
pub open spec fn each_type_once(types: Seq<SpecType>) -> bool {
    forall|i: int, j: int| 0 <= i < j < types.len() ==> types[i] != types[j]
}

/// The list is the set of the types `given`: it ascends, holds no type
/// twice, and holds exactly the types given.
pub open spec fn is_type_set_of(types: Seq<SpecType>, given: Seq<SpecType>) -> bool {
    &&& types_ascending(types)
    &&& each_type_once(types)
    &&& forall|x: SpecType| types.contains(x) <==> given.contains(x)
}

/// Where `t` belongs in an ascending list: the first index at or after
/// `from` whose type does not come before `t`.
pub open spec fn type_insertion_point(sorted: Seq<SpecType>, t: SpecType, from: nat) -> nat
    decreases sorted.len() - from,
{
    if from < sorted.len() && type_lt(sorted[from as int], t) {
        type_insertion_point(sorted, t, from + 1)
    } else {
        from
    }
}

/// The ascending list with `t` put in its place, unless it is there.
pub open spec fn insert_type(sorted: Seq<SpecType>, t: SpecType) -> Seq<SpecType> {
    let p = type_insertion_point(sorted, t, 0) as int;
    if p < sorted.len() && sorted[p] == t {
        sorted
    } else {
        sorted.insert(p, t)
    }
}

/// The first `n` of `types` as a set: in ascending order, each once.
pub open spec fn type_set(types: Seq<SpecType>, n: nat) -> Seq<SpecType>
    decreases n,
{
    if n == 0 || n > types.len() {
        Seq::empty()
    } else {
        insert_type(type_set(types, (n - 1) as nat), types[n - 1])
    }
}

/// The types as a set: in ascending order, each once.
pub open spec fn sorted_types(types: Seq<SpecType>) -> Seq<SpecType> {
    type_set(types, types.len())
}

/// What the scan for the place of a type has established.
pub proof fn type_insertion_point_found(sorted: Seq<SpecType>, t: SpecType, from: nat)
    requires
        from <= sorted.len(),
    ensures
        from <= type_insertion_point(sorted, t, from) <= sorted.len(),
        forall|k: int|
            from <= k < type_insertion_point(sorted, t, from) ==> type_lt(#[trigger] sorted[k], t),
        type_insertion_point(sorted, t, from) < sorted.len() ==> !type_lt(
            sorted[type_insertion_point(sorted, t, from) as int],
            t,
        ),
    decreases sorted.len() - from,
{
    if from < sorted.len() && type_lt(sorted[from as int], t) {
        type_insertion_point_found(sorted, t, from + 1);
    }
}

/// Putting a type in its place keeps an ascending list ascending, and adds
/// that type to it and no other.
pub proof fn insert_type_ascending(sorted: Seq<SpecType>, t: SpecType)
    requires
        types_ascending(sorted),
    ensures
        types_ascending(insert_type(sorted, t)),
        forall|x: SpecType|
            #[trigger] insert_type(sorted, t).contains(x) <==> sorted.contains(x) || x == t,
{
    let p = type_insertion_point(sorted, t, 0) as int;
    type_insertion_point_found(sorted, t, 0);
    let out = insert_type(sorted, t);
    if p < sorted.len() && sorted[p] == t {
        assert(sorted.contains(t));
    } else {
        assert forall|k: int| p <= k < sorted.len() implies type_lt(t, #[trigger] sorted[k]) by {
            type_lt_connected(t, sorted[p]);
            if k > p {
                type_lt_transitive(t, sorted[p], sorted[k]);
            }
        }
        assert forall|i: int, j: int| 0 <= i < j < out.len() implies type_lt(
            #[trigger] out[i],
            #[trigger] out[j],
        ) by {
            if j < p {
                assert(out[i] == sorted[i] && out[j] == sorted[j]);
            } else if j == p {
                assert(out[i] == sorted[i]);
            } else if i < p {
                assert(out[i] == sorted[i] && out[j] == sorted[j - 1]);
            } else if i == p {
                assert(out[j] == sorted[j - 1]);
            } else {
                assert(out[i] == sorted[i - 1] && out[j] == sorted[j - 1]);
            }
        }
        assert forall|x: SpecType| #[trigger] out.contains(x) <==> sorted.contains(x) || x
            == t by {
            if out.contains(x) {
                let i = choose|i: int| 0 <= i < out.len() && out[i] == x;
                if i < p {
                    assert(sorted[i] == x);
                } else if i > p {
                    assert(sorted[i - 1] == x);
                }
            }
            if sorted.contains(x) {
                let i = choose|i: int| 0 <= i < sorted.len() && sorted[i] == x;
                if i < p {
                    assert(out[i] == x);
                } else {
                    assert(out[i + 1] == x);
                }
            }
            if x == t {
                assert(out[p] == x);
            }
        }
    }
}

/// A set of types ascends and holds exactly the types it was made of.
pub proof fn type_set_ascending(types: Seq<SpecType>, n: nat)
    requires
        n <= types.len(),
    ensures
        types_ascending(type_set(types, n)),
        forall|x: SpecType|
            #[trigger] type_set(types, n).contains(x) <==> types.take(n as int).contains(x),
    decreases n,
{
    if n == 0 {
        assert(types.take(0) =~= Seq::<SpecType>::empty());
    } else {
        type_set_ascending(types, (n - 1) as nat);
        let before = type_set(types, (n - 1) as nat);
        let t = types[n - 1];
        insert_type_ascending(before, t);
        let out = type_set(types, n);
        assert(types.take(n as int) =~= types.take(n - 1).push(t));
        assert forall|x: SpecType| #[trigger] out.contains(x) <==> types.take(n as int).contains(
            x,
        ) by {
            let shorter = types.take(n - 1);
            let longer = types.take(n as int);
            assert(before.contains(x) <==> shorter.contains(x));
            if shorter.contains(x) {
                let i = choose|i: int| 0 <= i < shorter.len() && shorter[i] == x;
                assert(longer[i] == x);
            }
            if longer.contains(x) {
                let i = choose|i: int| 0 <= i < longer.len() && longer[i] == x;
                if i < n - 1 {
                    assert(shorter[i] == x);
                }
            }
            assert(longer[n - 1] == t);
        }
    }
}

/// The types as a set ascend, hold each type once, and hold exactly the
/// types given.
pub proof fn sorted_types_ascending(types: Seq<SpecType>)
    ensures
        types_ascending(sorted_types(types)),
        each_type_once(sorted_types(types)),
        forall|x: SpecType| #[trigger] sorted_types(types).contains(x) <==> types.contains(x),
        is_type_set_of(sorted_types(types), types),
{
    type_set_ascending(types, types.len());
    assert(types.take(types.len() as int) =~= types);
    let s = sorted_types(types);
    assert forall|i: int, j: int| 0 <= i < j < s.len() implies s[i] != s[j] by {
        type_lt_irreflexive(s[i]);
    }
}

/// Two ascending lists that hold the same types are the same list: a set of
/// types is one value however it was found.
pub proof fn ascending_lists_agree(a: Seq<SpecType>, b: Seq<SpecType>)
    requires
        types_ascending(a),
        types_ascending(b),
        forall|x: SpecType| a.contains(x) <==> b.contains(x),
    ensures
        a == b,
    decreases a.len(),
{
    if a.len() == 0 {
        if b.len() > 0 {
            assert(b.contains(b[0]));
        }
        assert(a =~= b);
    } else if b.len() == 0 {
        assert(a.contains(a[0]));
    } else {
        // the least types of both lists are the same type
        assert(a.contains(a[0]) && b.contains(b[0]));
        let i = choose|i: int| 0 <= i < b.len() && b[i] == a[0];
        let j = choose|j: int| 0 <= j < a.len() && a[j] == b[0];
        type_lt_irreflexive(a[0]);
        if i > 0 && j > 0 {
            type_lt_transitive(a[0], a[j], a[0]);
        }
        assert(a[0] == b[0]);
        let ar = a.drop_first();
        let br = b.drop_first();
        assert forall|x: SpecType| ar.contains(x) <==> br.contains(x) by {
            if ar.contains(x) {
                let k = choose|k: int| 0 <= k < ar.len() && ar[k] == x;
                assert(a[k + 1] == x);
                assert(a.contains(x));
                let m = choose|m: int| 0 <= m < b.len() && b[m] == x;
                type_lt_irreflexive(x);
                assert(type_lt(a[0], a[k + 1]));
                assert(m != 0);
                assert(br[m - 1] == x);
            }
            if br.contains(x) {
                let k = choose|k: int| 0 <= k < br.len() && br[k] == x;
                assert(b[k + 1] == x);
                assert(b.contains(x));
                let m = choose|m: int| 0 <= m < a.len() && a[m] == x;
                type_lt_irreflexive(x);
                assert(type_lt(b[0], b[k + 1]));
                assert(m != 0);
                assert(ar[m - 1] == x);
            }
        }
        assert(types_ascending(ar)) by {
            assert forall|p: int, q: int| 0 <= p < q < ar.len() implies type_lt(
                #[trigger] ar[p],
                #[trigger] ar[q],
            ) by {
                assert(ar[p] == a[p + 1] && ar[q] == a[q + 1]);
            }
        }
        assert(types_ascending(br)) by {
            assert forall|p: int, q: int| 0 <= p < q < br.len() implies type_lt(
                #[trigger] br[p],
                #[trigger] br[q],
            ) by {
                assert(br[p] == b[p + 1] && br[q] == b[q + 1]);
            }
        }
        ascending_lists_agree(ar, br);
        assert(a =~= seq![a[0]] + ar);
        assert(b =~= seq![b[0]] + br);
    }
}

/// Lists of the same types, in whatever order and however often repeated,
/// make the same set of types.
pub proof fn type_sets_agree(a: Seq<SpecType>, b: Seq<SpecType>)
    requires
        forall|x: SpecType| a.contains(x) <==> b.contains(x),
    ensures
        sorted_types(a) == sorted_types(b),
{
    sorted_types_ascending(a);
    sorted_types_ascending(b);
    let sa = sorted_types(a);
    let sb = sorted_types(b);
    assert forall|x: SpecType| sa.contains(x) <==> sb.contains(x) by {
        assert(sa.contains(x) <==> a.contains(x));
        assert(sb.contains(x) <==> b.contains(x));
    }
    ascending_lists_agree(sa, sb);
}

/// The place of the kind of `t` among the kinds of type.
pub fn rank_of(t: &Type) -> (out: u8)
    ensures
        out == rank(t@),
{
    match t {
        Type::Never => 0,
        Type::True => 1,
        Type::False => 2,
        Type::Boolean => 3,
        Type::Long => 4,
        Type::String => 5,
        Type::SetOf(_) => 6,
        Type::Record { .. } => 7,
        Type::Entity(_) => 8,
        Type::ActionEntity(_) => 9,
        Type::AnyEntity => 10,
        Type::Extension(_) => 11,
    }
}

/// Whether both lists hold the same attributes.
pub fn same_attributes(aa: &Vec<(String, AttributeType)>, ba: &Vec<(String, AttributeType)>) -> (out:
    bool)
    ensures
        out == (attributes_view(aa@) == attributes_view(ba@)),
{
    if aa.len() != ba.len() {
        assert(attributes_view(aa@).len() != attributes_view(ba@).len());
        return false;
    }
    let mut i: usize = 0;
    while i < aa.len()
        invariant
            i <= aa.len(),
            aa.len() == ba.len(),
            forall|j: int|
                0 <= j < i ==> attribute_view(#[trigger] aa@[j]) == attribute_view(ba@[j]),
        decreases aa.len() - i,
    {
        let x = &aa[i];
        let y = &ba[i];
        if x.0 != y.0 || x.1.is_required != y.1.is_required || !x.1.attr_type.same_as(
            &y.1.attr_type,
        ) {
            assert(attributes_view(aa@)[i as int] != attributes_view(ba@)[i as int]);
            return false;
        }
        i += 1;
    }
    assert(attributes_view(aa@) =~= attributes_view(ba@));
    true
}

/// Whether the attributes `aa` come before the attributes `ba`.
pub fn attributes_before(aa: &Vec<(String, AttributeType)>, ba: &Vec<(String, AttributeType)>) -> (out:
    bool)
    ensures
        out == attrs_lt(attributes_view(aa@), attributes_view(ba@), 0),
    decreases aa,
{
    let ghost av = attributes_view(aa@);
    let ghost bv = attributes_view(ba@);
    let mut i: usize = 0;
    while i < aa.len() && i < ba.len()
        invariant
            i <= aa.len(),
            i <= ba.len(),
            av == attributes_view(aa@),
            bv == attributes_view(ba@),
            attrs_lt(av, bv, i as nat) == attrs_lt(av, bv, 0),
        decreases aa.len() - i,
    {
        let x = &aa[i];
        let y = &ba[i];
        proof {
            assert(av[i as int] == attribute_view(*x));
            assert(bv[i as int] == attribute_view(*y));
        }
        if x.0 != y.0 {
            return str_lt(x.0.as_str(), y.0.as_str());
        }
        if !x.1.attr_type.same_as(&y.1.attr_type) {
            return x.1.attr_type.comes_before(&y.1.attr_type);
        }
        if x.1.is_required != y.1.is_required {
            return !x.1.is_required;
        }
        i += 1;
    }
    i < ba.len()
}

impl Type {
    /// Whether this type comes before `other` in the order of types.
    pub fn comes_before(&self, other: &Type) -> (out: bool)
        ensures
            out == type_lt(self@, other@),
        decreases self,
    {
        let (ra, rb) = (rank_of(self), rank_of(other));
        if ra != rb {
            return ra < rb;
        }
        match (self, other) {
            (Type::SetOf(x), Type::SetOf(y)) => {
                let x: &Type = x;
                x.comes_before(y)
            },
            (Type::Record { attrs: aa, open: ao }, Type::Record { attrs: ba, open: bo }) => {
                proof {
                    record_view(*self);
                    record_view(*other);
                }
                if !same_attributes(aa, ba) {
                    attributes_before(aa, ba)
                } else {
                    !*ao && *bo
                }
            },
            (Type::Entity(x), Type::Entity(y)) => qualified_before(&x.names, &y.names),
            (Type::ActionEntity(x), Type::ActionEntity(y)) => qualified_before(&x.names, &y.names),
            (Type::Extension(n), Type::Extension(m)) => name_before(n.as_str(), m.as_str()),
            _ => false,
        }
    }
}

/// Puts `t` in its place in an ascending list of types, unless it is there.
pub fn insert_type_sorted(sorted: &mut Vec<Type>, t: Type)
    ensures
        types_view(final(sorted)@) == insert_type(types_view(old(sorted)@), t@),
{
    let ghost before = types_view(sorted@);
    let mut p: usize = 0;
    while p < sorted.len() && sorted[p].comes_before(&t)
        invariant
            p <= sorted.len(),
            before == types_view(sorted@),
            type_insertion_point(before, t@, p as nat) == type_insertion_point(before, t@, 0),
        decreases sorted.len() - p,
    {
        p += 1;
    }
    if p < sorted.len() && sorted[p].same_as(&t) {
    } else {
        sorted.insert(p, t);
        assert(types_view(sorted@) =~= before.insert(p as int, t@));
    }
}

/// The types as a set: in ascending order, each once.
pub fn type_set_of(types: Vec<Type>) -> (out: Vec<Type>)
    ensures
        types_view(out@) == sorted_types(types_view(types@)),
        is_type_set_of(types_view(out@), types_view(types@)),
{
    let ghost given = types_view(types@);
    let mut out: Vec<Type> = Vec::new();
    let mut i: usize = 0;
    assert(types_view(out@) =~= type_set(given, 0));
    while i < types.len()
        invariant
            i <= types.len(),
            given == types_view(types@),
            types_view(out@) == type_set(given, i as nat),
        decreases types.len() - i,
    {
        assert(given[i as int] == types@[i as int]@);
        insert_type_sorted(&mut out, types[i].clone());
        i += 1;
    }
    proof {
        sorted_types_ascending(given);
    }
    out
}

} // verus!
