//! Text helpers shared by the semantic layer: equality of string slices,
//! splitting of `model.name` references, and concatenation of messages.

use vstd::prelude::*;
use vstd::string::StrSliceExecFns;
use vstd::string::StringExecFns;
use vstd::string::StringSliceAdditionalSpecFns;

verus! {

/// Compares two string slices character by character.
pub fn str_eq(a: &str, b: &str) -> (res: bool)
    ensures
        res == (a@ == b@),
{
    let ab = a.as_bytes();
    let bb = b.as_bytes();
    if ab.len() != bb.len() {
        return false;
    }
    let n = ab.len();
    let mut i: usize = 0;
    while i < n
        invariant
            n == ab@.len(),
            n == bb@.len(),
            ab@ == a.spec_bytes(),
            bb@ == b.spec_bytes(),
            i <= n,
            forall|j: int| 0 <= j < i ==> ab@[j] == bb@[j],
        decreases n - i,
    {
        if ab[i] != bb[i] {
            return false;
        }
        i = i + 1;
    }
    assert(ab@ =~= bb@);
    proof {
        vstd::utf8::encode_utf8_decode_utf8(a@);
        vstd::utf8::encode_utf8_decode_utf8(b@);
    }
    true
}


/// `i` is the position of the first occurrence of `c` in `s`.
pub open spec fn is_first_index_of(s: Seq<char>, c: char, i: int) -> bool {
    &&& 0 <= i < s.len()
    &&& s[i] == c
    &&& forall|j: int| 0 <= j < i ==> s[j] != c
}

/// What `str::split_once` with a `char` pattern gives: the text before and after the
/// first occurrence of `c`, or `None` when `c` does not occur.
pub open spec fn split_once_spec(s: Seq<char>, c: char) -> Option<(Seq<char>, Seq<char>)> {
    if exists|i: int| is_first_index_of(s, c, i) {
        let i = choose|i: int| is_first_index_of(s, c, i);
        Some((s.subrange(0, i), s.subrange(i + 1, s.len() as int)))
    } else {
        None
    }
}

/// The first occurrence of a character is unique.
pub proof fn lemma_first_index_unique(s: Seq<char>, c: char, i: int, j: int)
    requires
        is_first_index_of(s, c, i),
        is_first_index_of(s, c, j),
    ensures
        i == j,
{
}

/// Splits `value` at the first occurrence of `c`, as `str::split_once` does.
pub fn split_once_char<'a>(value: &'a str, c: char) -> (res: Option<(&'a str, &'a str)>)
    ensures
        match res {
            Some((before, after)) => split_once_spec(value@, c) == Some((before@, after@)),
            None => split_once_spec(value@, c) is None,
        },
{
    let n = value.unicode_len();
    let mut i: usize = 0;
    while i < n
        invariant
            n == value@.len(),
            i <= n,
            forall|j: int| 0 <= j < i ==> value@[j] != c,
        decreases n - i,
    {
        if value.get_char(i) == c {
            let before = value.substring_char(0, i);
            let after = value.substring_char(i + 1, n);
            proof {
                assert(is_first_index_of(value@, c, i as int));
                let k = choose|k: int| is_first_index_of(value@, c, k);
                lemma_first_index_unique(value@, c, i as int, k);
            }
            return Some((before, after));
        }
        i = i + 1;
    }
    None
}

/// A split at the first `c` puts `c` back between the two parts, and the first part
/// holds no `c`.
pub proof fn lemma_split_once_rejoins(s: Seq<char>, c: char)
    ensures
        split_once_spec(s, c) matches Some((before, after)) ==> {
            &&& s =~= before + seq![c] + after
            &&& !before.contains(c)
        },
        split_once_spec(s, c) is None ==> !s.contains(c),
{
    if exists|i: int| is_first_index_of(s, c, i) {
        let i = choose|i: int| is_first_index_of(s, c, i);
        let before = s.subrange(0, i);
        assert(s =~= before + seq![c] + s.subrange(i + 1, s.len() as int));
        assert forall|k: int| 0 <= k < before.len() implies before[k] != c by {}
    } else {
        assert forall|k: int| 0 <= k < s.len() implies s[k] != c by {
            if s[k] == c {
                lemma_earliest_occurrence(s, c, k);
            }
        }
    }
}

/// When `c` occurs at `k`, some position at or before `k` is its first occurrence.
pub proof fn lemma_earliest_occurrence(s: Seq<char>, c: char, k: int)
    requires
        0 <= k < s.len(),
        s[k] == c,
    ensures
        exists|i: int| is_first_index_of(s, c, i),
    decreases k,
{
    if exists|j: int| 0 <= j < k && s[j] == c {
        let j = choose|j: int| 0 <= j < k && s[j] == c;
        lemma_earliest_occurrence(s, c, j);
    } else {
        assert(is_first_index_of(s, c, k));
    }
}

/// `i` is the position of the last occurrence of `c` in `s`.
pub open spec fn is_last_index_of(s: Seq<char>, c: char, i: int) -> bool {
    &&& 0 <= i < s.len()
    &&& s[i] == c
    &&& forall|j: int| i < j < s.len() ==> s[j] != c
}

/// How `std::path::Path` parts a file name into stem and extension: the extension is
/// what follows the last `.`, unless the name has no `.`, its only leading `.` is its
/// first character, or it is `..`; then the stem is the whole name.
pub open spec fn file_name_parts(name: Seq<char>) -> (Seq<char>, Option<Seq<char>>) {
    if name == seq!['.', '.'] {
        (name, None)
    } else if exists|i: int| is_last_index_of(name, '.', i) && i > 0 {
        let i = choose|i: int| is_last_index_of(name, '.', i) && i > 0;
        (name.subrange(0, i), Some(name.subrange(i + 1, name.len() as int)))
    } else {
        (name, None)
    }
}

/// The last occurrence of a character is unique.
pub proof fn lemma_last_index_unique(s: Seq<char>, c: char, i: int, j: int)
    requires
        is_last_index_of(s, c, i),
        is_last_index_of(s, c, j),
    ensures
        i == j,
{
}

/// Parts the file name `name` into its stem and its extension, as `Path::file_stem`
/// and `Path::extension` do.
pub fn file_name_parts_of<'a>(name: &'a str) -> (res: (&'a str, Option<&'a str>))
    ensures
        file_name_parts(name@) == (res.0@, match res.1 {
            Some(e) => Some(e@),
            None => None::<Seq<char>>,
        }),
{
    let n = name.unicode_len();
    if n == 2 && name.get_char(0) == '.' && name.get_char(1) == '.' {
        assert(name@ =~= seq!['.', '.']);
        return (name, None);
    }
    let mut last: Option<usize> = None;
    let mut i: usize = 0;
    while i < n
        invariant
            n == name@.len(),
            i <= n,
            match last {
                Some(k) => k < i && name@[k as int] == '.' && forall|j: int| k < j < i ==> name@[j] != '.',
                None => forall|j: int| 0 <= j < i ==> name@[j] != '.',
            },
        decreases n - i,
    {
        if name.get_char(i) == '.' {
            last = Some(i);
        }
        i = i + 1;
    }
    match last {
        Some(k) => {
            assert(is_last_index_of(name@, '.', k as int));
            if k > 0 {
                proof {
                    let k2 = choose|k2: int| is_last_index_of(name@, '.', k2) && k2 > 0;
                    lemma_last_index_unique(name@, '.', k as int, k2);
                }
                (name.substring_char(0, k), Some(name.substring_char(k + 1, n)))
            } else {
                proof {
                    if exists|k2: int| is_last_index_of(name@, '.', k2) && k2 > 0 {
                        let k2 = choose|k2: int| is_last_index_of(name@, '.', k2) && k2 > 0;
                        lemma_last_index_unique(name@, '.', k as int, k2);
                    }
                }
                (name, None)
            }
        },
        None => (name, None),
    }
}

/// Builds a new `String` holding `a` followed by `b`.
pub fn concat2(a: &str, b: &str) -> (res: String)
    ensures
        res@ == a@ + b@,
{
    let mut res = String::from_str(a);
    res.append(b);
    res
}

/// Builds a new `String` holding `a`, `b`, `c`, `d` and `e` in that order.
pub fn concat5(a: &str, b: &str, c: &str, d: &str, e: &str) -> (res: String)
    ensures
        res@ == a@ + b@ + c@ + d@ + e@,
{
    let mut res = String::from_str(a);
    res.append(b);
    res.append(c);
    res.append(d);
    res.append(e);
    res
}

} // verus!
