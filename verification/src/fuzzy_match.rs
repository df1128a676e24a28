//! Suggestions for misspelt names: the known name closest to the one
//! written, by edit distance.

use vstd::prelude::*;
use crate::text::texts;

verus! {

/// A known name further away than this is not suggested.
pub const MAX_DISTANCE: usize = 3;

/// The least of three numbers.
pub open spec fn min3(a: nat, b: nat, c: nat) -> nat {
    if a <= b && a <= c {
        a
    } else if b <= c {
        b
    } else {
        c
    }
}

/// The edit distance between the first `i` characters of `a` and the first
/// `j` characters of `b`: the least number of insertions, deletions and
/// replacements of single characters that turn the one into the other.
pub open spec fn prefix_distance(a: Seq<char>, b: Seq<char>, i: nat, j: nat) -> nat
    decreases i + j,
{
    if i == 0 {
        j
    } else if j == 0 {
        i
    } else {
        let replace: nat = if a[i - 1] == b[j - 1] {
            0
        } else {
            1
        };
        min3(
            prefix_distance(a, b, (i - 1) as nat, j) + 1,
            prefix_distance(a, b, i, (j - 1) as nat) + 1,
            prefix_distance(a, b, (i - 1) as nat, (j - 1) as nat) + replace,
        )
    }
}

/// The edit distance between `a` and `b`.
pub open spec fn edit_distance(a: Seq<char>, b: Seq<char>) -> nat {
    prefix_distance(a, b, a.len(), b.len())
}

/// The distance between two prefixes is at most the sum of their lengths.
pub proof fn prefix_distance_bound(a: Seq<char>, b: Seq<char>, i: nat, j: nat)
    ensures
        prefix_distance(a, b, i, j) <= i + j,
    decreases i + j,
{
    if i > 0 && j > 0 {
        prefix_distance_bound(a, b, (i - 1) as nat, j);
    }
}

/// Whether the two names are short enough for their distance to be
/// computed: every distance on the way is at most the sum of their lengths,
/// which must fit the machine's integers.
pub open spec fn comparable(a: Seq<char>, b: Seq<char>) -> bool {
    a.len() + b.len() < usize::MAX
}

/// The closest to `key` among the first `n` candidates, with its distance;
/// of several equally close the first.
pub open spec fn best_match(key: Seq<char>, candidates: Seq<Seq<char>>, n: nat) -> Option<
    (Seq<char>, nat),
>
    decreases n,
{
    if n == 0 || n > candidates.len() {
        None
    } else {
        let before = best_match(key, candidates, (n - 1) as nat);
        let c = candidates[n - 1];
        if !comparable(key, c) {
            before
        } else {
            let d = edit_distance(key, c);
            match before {
                Some((_, least)) => if least <= d {
                    before
                } else {
                    Some((c, d))
                },
                None => Some((c, d)),
            }
        }
    }
}

/// The candidate to suggest for `key`: the closest, if it is close enough.
pub open spec fn suggestion(key: Seq<char>, candidates: Seq<Seq<char>>) -> Option<Seq<char>> {
    match best_match(key, candidates, candidates.len()) {
        Some((c, d)) => if d <= MAX_DISTANCE {
            Some(c)
        } else {
            None
        },
        None => None,
    }
}

/// The characters of a string.
pub fn chars_of(s: &str) -> (out: Vec<char>)
    ensures
        out@ == s@,
{
    let n = s.unicode_len();
    let mut out: Vec<char> = Vec::new();
    let mut i: usize = 0;
    while i < n
        invariant
            i <= n,
            n == s@.len(),
            out@ == s@.take(i as int),
        decreases n - i,
    {
        out.push(s.get_char(i));
        assert(s@.take(i + 1) =~= s@.take(i as int).push(s@[i as int]));
        i += 1;
    }
    assert(s@.take(n as int) =~= s@);
    out
}

/// The edit distance between `a` and `b`.
pub fn levenshtein(a: &Vec<char>, b: &Vec<char>) -> (out: usize)
    requires
        comparable(a@, b@),
    ensures
        out == edit_distance(a@, b@),
{
    let n = a.len();
    let m = b.len();
    let mut prev: Vec<usize> = Vec::new();
    let mut j: usize = 0;
    while j <= m
        invariant
            j <= m + 1,
            m < usize::MAX,
            prev@.len() == j,
            forall|k: int| 0 <= k < j ==> prev@[k] == prefix_distance(a@, b@, 0, k as nat),
        decreases m + 1 - j,
    {
        prev.push(j);
        j += 1;
    }
    let mut i: usize = 1;
    while i <= n
        invariant
            1 <= i <= n + 1,
            n == a@.len(),
            m == b@.len(),
            n + m < usize::MAX,
            prev@.len() == m + 1,
            forall|k: int|
                0 <= k <= m ==> prev@[k] == prefix_distance(a@, b@, (i - 1) as nat, k as nat),
        decreases n + 1 - i,
    {
        let mut cur: Vec<usize> = Vec::new();
        cur.push(i);
        let mut j: usize = 1;
        while j <= m
            invariant
                1 <= j <= m + 1,
                1 <= i <= n,
                n == a@.len(),
                m == b@.len(),
                n + m < usize::MAX,
                prev@.len() == m + 1,
                cur@.len() == j,
                forall|k: int|
                    0 <= k <= m ==> prev@[k] == prefix_distance(a@, b@, (i - 1) as nat, k as nat),
                forall|k: int| 0 <= k < j ==> cur@[k] == prefix_distance(a@, b@, i as nat, k as nat),
            decreases m + 1 - j,
        {
            proof {
                prefix_distance_bound(a@, b@, (i - 1) as nat, j as nat);
                prefix_distance_bound(a@, b@, i as nat, (j - 1) as nat);
                prefix_distance_bound(a@, b@, (i - 1) as nat, (j - 1) as nat);
            }
            let replace: usize = if a[i - 1] == b[j - 1] {
                0
            } else {
                1
            };
            let delete: usize = prev[j] + 1;
            let insert: usize = cur[j - 1] + 1;
            let change: usize = prev[j - 1] + replace;
            let least: usize = if delete <= insert && delete <= change {
                delete
            } else if insert <= change {
                insert
            } else {
                change
            };
            cur.push(least);
            j += 1;
        }
        prev = cur;
        i += 1;
    }
    prev[m]
}

/// The known name to suggest in place of `key`.
pub fn fuzzy_search(key: &String, candidates: &Vec<String>) -> (out: Option<String>)
    ensures
        crate::text::opt_text(out) == suggestion(key@, texts(candidates)),
{
    let key_chars = chars_of(key.as_str());
    let mut best: Option<(usize, usize)> = None;
    let mut i: usize = 0;
    while i < candidates.len()
        invariant
            i <= candidates.len(),
            key_chars@ == key@,
            match best {
                Some((at, d)) => at < i && best_match(key@, texts(candidates), i as nat) == Some(
                    (candidates@[at as int]@, d as nat),
                ),
                None => best_match(key@, texts(candidates), i as nat) is None,
            },
        decreases candidates.len() - i,
    {
        let cand_chars = chars_of(candidates[i].as_str());
        assert(texts(candidates)[i as int] == cand_chars@);
        let fits = match key_chars.len().checked_add(cand_chars.len()) {
            Some(total) => total < usize::MAX,
            None => false,
        };
        if fits {
            let d = levenshtein(&key_chars, &cand_chars);
            match best {
                Some((_, least)) => {
                    if d < least {
                        best = Some((i, d));
                    }
                },
                None => {
                    best = Some((i, d));
                },
            }
        }
        i += 1;
    }
    match best {
        Some((at, d)) => if d <= MAX_DISTANCE {
            Some(candidates[at].clone())
        } else {
            None
        },
        None => None,
    }
}

} // verus!
