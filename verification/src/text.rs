//! String building blocks shared by the diagnostics: joining, quoting,
//! decimal numerals and the ordering of names.

use vstd::prelude::*;
use vstd::string::StrSliceExecFns;
use crate::fuzzy_match::chars_of;

verus! {

/// The character sequences of a vector of strings, in order.
pub open spec fn texts(items: &Vec<String>) -> Seq<Seq<char>> {
    items@.map_values(|s: String| s@)
}

/// The items in order, with `sep` between neighbours.
pub open spec fn joined(items: Seq<Seq<char>>, sep: Seq<char>) -> Seq<char>
    decreases items.len(),
{
    if items.len() == 0 {
        Seq::empty()
    } else if items.len() == 1 {
        items[0]
    } else {
        joined(items.drop_last(), sep) + sep + items.last()
    }
}

/// An enumeration in prose: `a`, `a and b`, `a, b, and c`.
pub open spec fn conjoined(items: Seq<Seq<char>>, conjunction: Seq<char>) -> Seq<char> {
    if items.len() == 0 {
        Seq::empty()
    } else if items.len() == 1 {
        items[0]
    } else if items.len() == 2 {
        items[0] + " "@ + conjunction + " "@ + items[1]
    } else {
        joined(items.drop_last(), ", "@) + ", "@ + conjunction + " "@ + items.last()
    }
}

/// Joins `items` with `sep` between neighbours.
///
/// Trusted: calls `itertools::Itertools::join` on the items in order, which
/// writes the first item and then, for every further item, the separator
/// followed by the item.
#[verifier::external_body]
pub(crate) fn join(items: &Vec<String>, sep: &str) -> (out: String)
    ensures
        out@ == joined(texts(items), sep@),
{
    itertools::Itertools::join(&mut items.iter(), sep)
}

/// The error of `std::fmt::Write`, which writing into a `String` never raises.
#[verifier::external_type_specification]
#[verifier::external_body]
pub struct ExFmtError(std::fmt::Error);

/// Appends `item` to `out`; the writer callback of [`join_with_conjunction`].
pub fn write_item(out: &mut String, item: &String) -> (done: Result<(), std::fmt::Error>)
    ensures
        done is Ok,
        final(out)@ == old(out)@ + item@,
{
    out.append(item.as_str());
    Ok(())
}

/// Joins `items` as an enumeration in prose.
///
/// Trusted: calls `cedar_policy_core::parser::join_with_conjunction` with a
/// fresh string as the writer. That function writes nothing for no item, the
/// item itself for one, the two items around ` <conjunction> ` for two, and
/// for more the items separated by `, ` with `, <conjunction> ` before the
/// last.
#[verifier::external_body]
pub(crate) fn join_with_conjunction(items: &Vec<String>, conjunction: &str) -> (out: String)
    ensures
        out@ == conjoined(texts(items), conjunction@),
{
    let mut out = String::new();
    let _ = cedar_policy_core::parser::join_with_conjunction(
        &mut out,
        conjunction,
        items.iter(),
        |f, item| write_item(f, item),
    );
    out
}

/// The order of names: lexicographic by code point.
pub open spec fn text_lt(a: Seq<char>, b: Seq<char>) -> bool
    decreases a.len(),
{
    if b.len() == 0 {
        false
    } else if a.len() == 0 {
        true
    } else if a[0] != b[0] {
        (a[0] as u32) < (b[0] as u32)
    } else {
        text_lt(a.drop_first(), b.drop_first())
    }
}

/// No name comes before itself.
pub proof fn text_lt_irreflexive(a: Seq<char>)
    ensures
        !text_lt(a, a),
    decreases a.len(),
{
    if a.len() > 0 {
        text_lt_irreflexive(a.drop_first());
    }
}

/// The order of names is transitive.
pub proof fn text_lt_transitive(a: Seq<char>, b: Seq<char>, c: Seq<char>)
    requires
        text_lt(a, b),
        text_lt(b, c),
    ensures
        text_lt(a, c),
    decreases a.len(),
{
    if a.len() > 0 && a[0] == b[0] && b[0] == c[0] {
        text_lt_transitive(a.drop_first(), b.drop_first(), c.drop_first());
    }
}

/// Of two different names one comes before the other.
pub proof fn text_lt_connected(a: Seq<char>, b: Seq<char>)
    ensures
        a == b || text_lt(a, b) || text_lt(b, a),
    decreases a.len(),
{
    if a.len() == 0 || b.len() == 0 {
        if a.len() == 0 && b.len() == 0 {
            assert(a =~= b);
        }
    } else if a[0] == b[0] {
        text_lt_connected(a.drop_first(), b.drop_first());
        if a.drop_first() == b.drop_first() {
            assert(a =~= seq![a[0]] + a.drop_first());
            assert(b =~= seq![b[0]] + b.drop_first());
        }
    } else {
        chars_connected(a[0], b[0]);
    }
}

/// Of two different characters one has the lesser code point.
proof fn chars_connected(x: char, y: char)
    ensures
        x == y || (x as u32) < (y as u32) || (y as u32) < (x as u32),
{
}

/// Whether `a` comes before `b` in the order of names.
///
/// Trusted: `<` on `str`, which std documents as lexicographic by byte
/// values, an order that agrees with the order of the code points.
#[verifier::external_body]
pub(crate) fn str_lt(a: &str, b: &str) -> (less: bool)
    ensures
        less == text_lt(a@, b@),
{
    a < b
}

/// A copy of a vector of strings.
pub fn clone_strings(items: &Vec<String>) -> (out: Vec<String>)
    ensures
        out@ == items@,
{
    let mut out: Vec<String> = Vec::new();
    let mut i: usize = 0;
    while i < items.len()
        invariant
            i <= items.len(),
            out@ == items@.take(i as int),
        decreases items.len() - i,
    {
        out.push(items[i].clone());
        assert(items@.take(i + 1) =~= items@.take(i as int).push(items@[i as int]));
        i += 1;
    }
    assert(items@.take(items.len() as int) =~= items@);
    out
}

/// Whether two vectors hold the same strings in the same order.
pub fn same_strings(a: &Vec<String>, b: &Vec<String>) -> (same: bool)
    ensures
        same == (texts(a) == texts(b)),
{
    if a.len() != b.len() {
        assert(texts(a).len() != texts(b).len());
        return false;
    }
    let mut i: usize = 0;
    while i < a.len()
        invariant
            i <= a.len(),
            a.len() == b.len(),
            forall|j: int| 0 <= j < i ==> a@[j]@ == b@[j]@,
        decreases a.len() - i,
    {
        if a[i] != b[i] {
            assert(texts(a)[i as int] != texts(b)[i as int]);
            return false;
        }
        i += 1;
    }
    assert(texts(a) =~= texts(b));
    true
}

/// Whether `name` is one of `items`.
pub fn has_string(items: &Vec<String>, name: &String) -> (found: bool)
    ensures
        found == texts(items).contains(name@),
{
    let mut i: usize = 0;
    while i < items.len()
        invariant
            i <= items.len(),
            forall|j: int| 0 <= j < i ==> items@[j]@ != name@,
        decreases items.len() - i,
    {
        if items[i] == *name {
            assert(texts(items)[i as int] == name@);
            return true;
        }
        i += 1;
    }
    false
}

/// The items in the opposite order.
pub open spec fn backwards(items: Seq<Seq<char>>) -> Seq<Seq<char>> {
    Seq::new(items.len(), |i: int| items[items.len() - 1 - i])
}

/// A copy of `items` in the opposite order.
pub fn reversed(items: &Vec<String>) -> (out: Vec<String>)
    ensures
        texts(&out) == backwards(texts(items)),
{
    let mut out: Vec<String> = Vec::new();
    let mut i: usize = items.len();
    while i > 0
        invariant
            i <= items.len(),
            out@.len() == items.len() - i,
            forall|j: int| 0 <= j < out@.len() ==> (#[trigger] out@[j])@ == items@[items.len() - 1 - j]@,
        decreases i,
    {
        i -= 1;
        out.push(items[i].clone());
    }
    assert(texts(&out) =~= backwards(texts(items)));
    out
}

/// The decimal digit for a number below ten.
pub open spec fn digit(d: nat) -> char {
    if d == 0 {
        '0'
    } else if d == 1 {
        '1'
    } else if d == 2 {
        '2'
    } else if d == 3 {
        '3'
    } else if d == 4 {
        '4'
    } else if d == 5 {
        '5'
    } else if d == 6 {
        '6'
    } else if d == 7 {
        '7'
    } else if d == 8 {
        '8'
    } else {
        '9'
    }
}

/// The decimal numeral of `n`, without leading zeros.
pub open spec fn decimal(n: nat) -> Seq<char>
    decreases n,
{
    if n < 10 {
        seq![digit(n)]
    } else {
        decimal(n / 10).push(digit(n % 10))
    }
}

/// The decimal digit for a number below ten, as a text.
fn digit_text(d: usize) -> (out: &'static str)
    requires
        d < 10,
    ensures
        out@ == seq![digit(d as nat)],
{
    proof {
        reveal_strlit("0");
        reveal_strlit("1");
        reveal_strlit("2");
        reveal_strlit("3");
        reveal_strlit("4");
        reveal_strlit("5");
        reveal_strlit("6");
        reveal_strlit("7");
        reveal_strlit("8");
        reveal_strlit("9");
    }
    let out = if d == 0 {
        "0"
    } else if d == 1 {
        "1"
    } else if d == 2 {
        "2"
    } else if d == 3 {
        "3"
    } else if d == 4 {
        "4"
    } else if d == 5 {
        "5"
    } else if d == 6 {
        "6"
    } else if d == 7 {
        "7"
    } else if d == 8 {
        "8"
    } else {
        "9"
    };
    assert(out@ =~= seq![digit(d as nat)]);
    out
}

/// The decimal numeral of `n`.
pub fn decimal_text(n: usize) -> (out: String)
    ensures
        out@ == decimal(n as nat),
    decreases n,
{
    if n < 10 {
        String::from_str(digit_text(n))
    } else {
        let mut out = decimal_text(n / 10);
        out.append(digit_text(n % 10));
        assert(out@ =~= decimal((n / 10) as nat).push(digit((n % 10) as nat)));
        out
    }
}

/// What `escape_debug` of std makes of an entity id, as the entity
/// identifiers of `cedar_policy_core` print it.
pub uninterp spec fn eid_escaped(eid: Seq<char>) -> Seq<char>;

/// The id of an entity with its special characters escaped.
///
/// Trusted: `cedar_policy_core::ast::Eid::escaped`, which collects
/// `str::escape_debug` of the id; the result depends on the id alone.
#[verifier::external_body]
pub(crate) fn escaped_eid(eid: &str) -> (out: String)
    ensures
        out@ == eid_escaped(eid@),
{
    cedar_policy_core::ast::Eid::new(eid).escaped().to_string()
}

/// `before`, `middle` and `after` in one string.
pub fn surround(before: &str, middle: &str, after: &str) -> (out: String)
    ensures
        out@ == before@ + middle@ + after@,
{
    let mut out = String::from_str(before);
    out.append(middle);
    out.append(after);
    out
}

/// An optional string as a mathematical value.
pub open spec fn opt_text(s: Option<String>) -> Option<Seq<char>> {
    match s {
        Some(t) => Some(t@),
        None => None,
    }
}

/// A copy of an optional string.
pub fn clone_opt(s: &Option<String>) -> (out: Option<String>)
    ensures
        opt_text(out) == opt_text(*s),
{
    match s {
        Some(t) => Some(t.clone()),
        None => None,
    }
}

/// Whether both hold the same string, or both none.
pub fn same_opt(a: &Option<String>, b: &Option<String>) -> (same: bool)
    ensures
        same == (opt_text(*a) == opt_text(*b)),
{
    match (a, b) {
        (Some(x), Some(y)) => *x == *y,
        (None, None) => true,
        _ => false,
    }
}

/// Whether the names of `x` from the `i`th on come before those of `y`:
/// where they first differ, `x` has the lesser name or has come to its end.
pub open spec fn names_lt(x: Seq<Seq<char>>, y: Seq<Seq<char>>, i: nat) -> bool
    decreases x.len() - i,
{
    if i >= y.len() {
        false
    } else if i >= x.len() {
        true
    } else if x[i as int] != y[i as int] {
        text_lt(x[i as int], y[i as int])
    } else {
        names_lt(x, y, i + 1)
    }
}

/// No list of names comes before itself.
pub proof fn names_lt_irreflexive(x: Seq<Seq<char>>, i: nat)
    ensures
        !names_lt(x, x, i),
    decreases x.len() - i,
{
    if i < x.len() {
        names_lt_irreflexive(x, i + 1);
    }
}

/// The order of lists of names is transitive.
pub proof fn names_lt_transitive(x: Seq<Seq<char>>, y: Seq<Seq<char>>, z: Seq<Seq<char>>, i: nat)
    requires
        names_lt(x, y, i),
        names_lt(y, z, i),
    ensures
        names_lt(x, z, i),
    decreases x.len() - i,
{
    if i < x.len() {
        let (a, b, c) = (x[i as int], y[i as int], z[i as int]);
        text_lt_irreflexive(a);
        if a != b && b != c {
            text_lt_transitive(a, b, c);
        } else if a == b && b == c {
            names_lt_transitive(x, y, z, i + 1);
        }
    }
}

/// Of two lists of names that agree before the `i`th and differ, one comes
/// before the other from the `i`th on.
pub proof fn names_lt_connected(x: Seq<Seq<char>>, y: Seq<Seq<char>>, i: nat)
    requires
        x != y,
        i <= x.len(),
        i <= y.len(),
        forall|k: int| 0 <= k < i ==> x[k] == y[k],
    ensures
        names_lt(x, y, i) || names_lt(y, x, i),
    decreases x.len() + y.len() - i,
{
    if i >= x.len() && i >= y.len() {
        assert(x =~= y);
    } else if i < x.len() && i < y.len() {
        if x[i as int] != y[i as int] {
            text_lt_connected(x[i as int], y[i as int]);
        } else {
            names_lt_connected(x, y, i + 1);
        }
    }
}

/// Whether the names `x` come before the names `y`.
pub fn names_before(x: &Vec<String>, y: &Vec<String>) -> (out: bool)
    ensures
        out == names_lt(texts(x), texts(y), 0),
{
    let mut i: usize = 0;
    while i < x.len() && i < y.len()
        invariant
            i <= x.len(),
            i <= y.len(),
            names_lt(texts(x), texts(y), i as nat) == names_lt(texts(x), texts(y), 0),
        decreases x.len() - i,
    {
        if x[i] != y[i] {
            return str_lt(x[i].as_str(), y[i].as_str());
        }
        i += 1;
    }
    i < y.len()
}

/// Whether the separator `::` of a qualified name stands at `i` in `s`.
pub open spec fn is_separator(s: Seq<char>, i: int) -> bool {
    0 <= i && i + 1 < s.len() && s[i] == ':' && s[i + 1] == ':'
}

/// The last place before `n` at which a separator stands in `s`.
pub open spec fn last_separator(s: Seq<char>, n: nat) -> Option<int>
    decreases n,
{
    if n == 0 {
        None
    } else if is_separator(s, n - 1) {
        Some(n - 1)
    } else {
        last_separator(s, (n - 1) as nat)
    }
}

/// The parts of a qualified name: what stands between its separators, the
/// namespaces first and the base name last.
pub open spec fn components(s: Seq<char>) -> Seq<Seq<char>>
    decreases s.len(),
{
    match last_separator(s, s.len()) {
        None => seq![s],
        Some(i) => if 0 <= i < s.len() {
            components(s.subrange(0, i)).push(s.subrange(i + 2, s.len() as int))
        } else {
            seq![s]
        },
    }
}

/// What a qualified name is ordered by: its base name first, then its
/// namespaces from the outermost inwards.
pub open spec fn name_key(s: Seq<char>) -> Seq<Seq<char>> {
    seq![components(s).last()] + components(s).drop_last()
}

/// The order of qualified names: by base name, and among names with one
/// base name by their namespaces, one after the other.
pub open spec fn name_lt(a: Seq<char>, b: Seq<char>) -> bool {
    names_lt(name_key(a), name_key(b), 0)
}

/// Where the last separator stands, if there is one.
pub proof fn last_separator_found(s: Seq<char>, n: nat)
    requires
        n <= s.len(),
    ensures
        last_separator(s, n) matches Some(i) ==> 0 <= i < n && is_separator(s, i),
    decreases n,
{
    if n > 0 && !is_separator(s, n - 1) {
        last_separator_found(s, (n - 1) as nat);
    }
}

/// A name has at least one part.
pub proof fn components_exist(s: Seq<char>)
    ensures
        components(s).len() >= 1,
    decreases s.len(),
{
    last_separator_found(s, s.len());
}

/// Names with the same parts are the same name.
pub proof fn components_determine(a: Seq<char>, b: Seq<char>)
    requires
        components(a) == components(b),
    ensures
        a == b,
    decreases a.len(),
{
    last_separator_found(a, a.len());
    last_separator_found(b, b.len());
    match (last_separator(a, a.len()), last_separator(b, b.len())) {
        (None, None) => {
            assert(seq![a][0] == seq![b][0]);
        },
        (Some(i), Some(j)) => {
            let pa = a.subrange(0, i);
            let pb = b.subrange(0, j);
            let ba = a.subrange(i + 2, a.len() as int);
            let bb = b.subrange(j + 2, b.len() as int);
            let ca = components(pa).push(ba);
            let cb = components(pb).push(bb);
            assert(ca.last() == cb.last());
            assert(ca.drop_last() =~= components(pa));
            assert(cb.drop_last() =~= components(pb));
            assert(components(a) == ca);
            assert(components(b) == cb);
            assert(components(pa) == components(pb));
            assert(ba == bb);
            components_determine(pa, pb);
            assert(i == pa.len() && j == pb.len());
            assert(a[i] == ':' && a[i + 1] == ':');
            assert(b[j] == ':' && b[j + 1] == ':');
            assert(a =~= pa + seq![':', ':'] + ba);
            assert(b =~= pb + seq![':', ':'] + bb);
        },
        (Some(i), None) => {
            components_exist(a.subrange(0, i));
            assert(components(a).len() >= 2);
            assert(components(b).len() == 1);
        },
        (None, Some(j)) => {
            components_exist(b.subrange(0, j));
            assert(components(b).len() >= 2);
            assert(components(a).len() == 1);
        },
    }
}

/// Names that are ordered by the same are the same name.
pub proof fn name_key_determines(a: Seq<char>, b: Seq<char>)
    requires
        name_key(a) == name_key(b),
    ensures
        a == b,
{
    components_exist(a);
    components_exist(b);
    let ca = components(a);
    let cb = components(b);
    assert(name_key(a)[0] == ca.last());
    assert(name_key(b)[0] == cb.last());
    assert(ca.len() == cb.len()) by {
        assert(name_key(a).len() == ca.len());
        assert(name_key(b).len() == cb.len());
    }
    assert(ca =~= cb) by {
        assert forall|k: int| 0 <= k < ca.len() implies ca[k] == cb[k] by {
            if k < ca.len() - 1 {
                assert(name_key(a)[k + 1] == ca[k]);
                assert(name_key(b)[k + 1] == cb[k]);
            }
        }
    }
    components_determine(a, b);
}

/// No name comes before itself.
pub proof fn name_lt_irreflexive(a: Seq<char>)
    ensures
        !name_lt(a, a),
{
    names_lt_irreflexive(name_key(a), 0);
}

/// The order of qualified names is transitive.
pub proof fn name_lt_transitive(a: Seq<char>, b: Seq<char>, c: Seq<char>)
    requires
        name_lt(a, b),
        name_lt(b, c),
    ensures
        name_lt(a, c),
{
    names_lt_transitive(name_key(a), name_key(b), name_key(c), 0);
}

/// Of two different qualified names one comes before the other.
pub proof fn name_lt_connected(a: Seq<char>, b: Seq<char>)
    ensures
        a == b || name_lt(a, b) || name_lt(b, a),
{
    if a != b {
        if name_key(a) == name_key(b) {
            name_key_determines(a, b);
        }
        names_lt_connected(name_key(a), name_key(b), 0);
    }
}

/// The parts of the qualified name `s`.
pub fn name_components(s: &str) -> (out: Vec<String>)
    ensures
        texts(&out) == components(s@),
    decreases s@.len(),
{
    let chars = chars_of(s);
    let n = chars.len();
    let mut i: usize = n;
    while i > 0
        invariant
            i <= n,
            n == s@.len(),
            chars@ == s@,
            last_separator(s@, n as nat) == last_separator(s@, i as nat),
        decreases i,
    {
        i -= 1;
        if i + 1 < n && chars[i] == ':' && chars[i + 1] == ':' {
            let mut out = name_components(s.substring_char(0, i));
            let base = String::from_str(s.substring_char(i + 2, n));
            let ghost before = texts(&out);
            out.push(base);
            assert(texts(&out) =~= before.push(base@));
            return out;
        }
    }
    let mut out: Vec<String> = Vec::new();
    out.push(String::from_str(s));
    assert(texts(&out) =~= seq![s@]);
    out
}

/// What the qualified name `s` is ordered by.
pub fn name_key_of(s: &str) -> (out: Vec<String>)
    ensures
        texts(&out) == name_key(s@),
{
    proof {
        components_exist(s@);
    }
    let mut parts = name_components(s);
    let ghost all = texts(&parts);
    let base = parts.pop().unwrap();
    let mut out: Vec<String> = Vec::new();
    out.push(base);
    let mut i: usize = 0;
    assert(texts(&out) =~= seq![all.last()] + all.drop_last().take(0));
    while i < parts.len()
        invariant
            i <= parts.len(),
            texts(&parts) == all.drop_last(),
            texts(&out) == seq![all.last()] + all.drop_last().take(i as int),
        decreases parts.len() - i,
    {
        let ghost before = texts(&out);
        out.push(parts[i].clone());
        proof {
            let rest = all.drop_last();
            assert(texts(&parts)[i as int] == rest[i as int]);
            assert(texts(&out) =~= before.push(rest[i as int]));
            assert(rest.take(i + 1) =~= rest.take(i as int).push(rest[i as int]));
            assert(before.push(rest[i as int]) =~= seq![all.last()] + rest.take(i + 1));
        }
        i += 1;
    }
    assert(all.drop_last().take(parts.len() as int) =~= all.drop_last()) by {
        assert(texts(&parts).len() == parts.len());
    }
    out
}

/// Whether the qualified name `a` comes before the qualified name `b`.
pub fn name_before(a: &str, b: &str) -> (out: bool)
    ensures
        out == name_lt(a@, b@),
{
    names_before(&name_key_of(a), &name_key_of(b))
}

/// Whether the qualified names of `x` from the `i`th on come before those of
/// `y`: where they first differ, `x` has the name that comes first or has
/// come to its end.
pub open spec fn qualified_lt(x: Seq<Seq<char>>, y: Seq<Seq<char>>, i: nat) -> bool
    decreases x.len() - i,
{
    if i >= y.len() {
        false
    } else if i >= x.len() {
        true
    } else if x[i as int] != y[i as int] {
        name_lt(x[i as int], y[i as int])
    } else {
        qualified_lt(x, y, i + 1)
    }
}

/// No list of qualified names comes before itself.
pub proof fn qualified_lt_irreflexive(x: Seq<Seq<char>>, i: nat)
    ensures
        !qualified_lt(x, x, i),
    decreases x.len() - i,
{
    if i < x.len() {
        qualified_lt_irreflexive(x, i + 1);
    }
}

/// The order of lists of qualified names is transitive.
pub proof fn qualified_lt_transitive(x: Seq<Seq<char>>, y: Seq<Seq<char>>, z: Seq<Seq<char>>, i: nat)
    requires
        qualified_lt(x, y, i),
        qualified_lt(y, z, i),
    ensures
        qualified_lt(x, z, i),
    decreases x.len() - i,
{
    if i < x.len() {
        let (a, b, c) = (x[i as int], y[i as int], z[i as int]);
        name_lt_irreflexive(a);
        if a != b && b != c {
            name_lt_transitive(a, b, c);
        } else if a == b && b == c {
            qualified_lt_transitive(x, y, z, i + 1);
        }
    }
}

/// Of two lists of qualified names that agree before the `i`th and differ,
/// one comes before the other from the `i`th on.
pub proof fn qualified_lt_connected(x: Seq<Seq<char>>, y: Seq<Seq<char>>, i: nat)
    requires
        x != y,
        i <= x.len(),
        i <= y.len(),
        forall|k: int| 0 <= k < i ==> x[k] == y[k],
    ensures
        qualified_lt(x, y, i) || qualified_lt(y, x, i),
    decreases x.len() + y.len() - i,
{
    if i >= x.len() && i >= y.len() {
        assert(x =~= y);
    } else if i < x.len() && i < y.len() {
        if x[i as int] != y[i as int] {
            name_lt_connected(x[i as int], y[i as int]);
        } else {
            qualified_lt_connected(x, y, i + 1);
        }
    }
}

/// Whether the qualified names `x` come before the qualified names `y`.
pub fn qualified_before(x: &Vec<String>, y: &Vec<String>) -> (out: bool)
    ensures
        out == qualified_lt(texts(x), texts(y), 0),
{
    let mut i: usize = 0;
    while i < x.len() && i < y.len()
        invariant
            i <= x.len(),
            i <= y.len(),
            qualified_lt(texts(x), texts(y), i as nat) == qualified_lt(texts(x), texts(y), 0),
        decreases x.len() - i,
    {
        if x[i] != y[i] {
            return name_before(x[i].as_str(), y[i].as_str());
        }
        i += 1;
    }
    i < y.len()
}


} // verus!
