use vstd::prelude::*;

verus! {

/// `i` is the position of the last `c` in `s`.
pub open spec fn is_last_of(s: Seq<char>, c: char, i: int) -> bool {
    &&& 0 <= i < s.len()
    &&& s[i] == c
    &&& forall|j: int| i < j < s.len() ==> s[j] != c
}

/// `s` contains `c`.
pub open spec fn holds_char(s: Seq<char>, c: char) -> bool {
    exists|i: int| is_last_of(s, c, i)
}

/// The position of the last `c` in `s`, where there is one.
pub open spec fn last_of(s: Seq<char>, c: char) -> int {
    choose|i: int| is_last_of(s, c, i)
}

/// What precedes the last `c` of `s`.
pub open spec fn before_last(s: Seq<char>, c: char) -> Seq<char> {
    s.subrange(0, last_of(s, c))
}

/// `s` carries an extension: a suffix after a `.`.
pub open spec fn has_extension(s: Seq<char>) -> bool {
    holds_char(s, '.')
}

/// What follows the last `.` of `s`.
pub open spec fn extension_of(s: Seq<char>) -> Seq<char> {
    s.subrange(last_of(s, '.') + 1, s.len() as int)
}

/// `s` begins with `p`.
pub open spec fn begins_with(s: Seq<char>, p: Seq<char>) -> bool {
    p.len() <= s.len() && s.subrange(0, p.len() as int) == p
}

/// A character has at most one last position in a string.
pub proof fn lemma_last_of_unique(s: Seq<char>, c: char, i: int, k: int)
    requires
        is_last_of(s, c, i),
        is_last_of(s, c, k),
    ensures
        i == k,
{
    if i < k {
        assert(s[k] != c);
    } else if k < i {
        assert(s[i] != c);
    }
}

/// Where `i` is the last dot of `s`, the extension is what follows it.
pub proof fn lemma_extension_at(s: Seq<char>, i: int)
    requires
        is_last_of(s, '.', i),
    ensures
        has_extension(s),
        extension_of(s) == s.subrange(i + 1, s.len() as int),
{
    assert(has_extension(s));
    lemma_last_of_unique(s, '.', i, last_of(s, '.'));
}

/// Compares two strings character by character.
pub fn same_text(s: &str, t: &str) -> (r: bool)
    ensures
        r == (s@ == t@),
{
    let n = s.unicode_len();
    if n != t.unicode_len() {
        return false;
    }
    let mut i: usize = 0;
    while i < n
        invariant
            n == s@.len(),
            n == t@.len(),
            i <= n,
            forall|j: int| 0 <= j < i ==> s@[j] == t@[j],
        decreases n - i,
    {
        if s.get_char(i) != t.get_char(i) {
            return false;
        }
        i = i + 1;
    }
    assert(s@ =~= t@);
    true
}

/// Tells whether `s` begins with `p`.
pub fn starts_with(s: &str, p: &str) -> (r: bool)
    ensures
        r == begins_with(s@, p@),
{
    let n = p.unicode_len();
    if n > s.unicode_len() {
        return false;
    }
    let mut i: usize = 0;
    while i < n
        invariant
            n == p@.len(),
            n <= s@.len(),
            i <= n,
            forall|j: int| 0 <= j < i ==> s@[j] == p@[j],
        decreases n - i,
    {
        if s.get_char(i) != p.get_char(i) {
            assert(s@.subrange(0, n as int)[i as int] != p@[i as int]);
            return false;
        }
        i = i + 1;
    }
    assert(s@.subrange(0, n as int) =~= p@);
    true
}

/// The position of the last `c` in `s`, or `None` where `s` has none.
pub fn find_last(s: &str, c: char) -> (r: Option<usize>)
    ensures
        match r {
            Some(i) => is_last_of(s@, c, i as int),
            None => !holds_char(s@, c),
        },
{
    let n = s.unicode_len();
    let mut i: usize = n;
    while i > 0
        invariant
            n == s@.len(),
            i <= n,
            forall|j: int| i <= j < n ==> s@[j] != c,
        decreases i,
    {
        if s.get_char(i - 1) == c {
            return Some(i - 1);
        }
        i = i - 1;
    }
    assert forall|k: int| !is_last_of(s@, c, k) by {
        if 0 <= k < n {
            assert(s@[k] != c);
        }
    }
    None
}

/// The extension of `name`: what follows its last `.`, or `None` where it has none.
pub fn extension(name: &str) -> (r: Option<String>)
    ensures
        r is Some == has_extension(name@),
        r matches Some(e) ==> e@ == extension_of(name@),
{
    match find_last(name, '.') {
        Some(i) => {
            proof {
                lemma_extension_at(name@, i as int);
            }
            let n = name.unicode_len();
            let tail = name.substring_char(i + 1, n);
            Some(tail.to_owned())
        },
        None => None,
    }
}

/// What precedes the last `sep` of `path`: its parent directory, or `None`
/// where `path` holds no `sep`.
pub fn parent_dir(path: &str, sep: char) -> (r: Option<String>)
    ensures
        r is Some == holds_char(path@, sep),
        r matches Some(p) ==> p@ == before_last(path@, sep),
{
    match find_last(path, sep) {
        Some(i) => {
            proof {
                lemma_last_of_unique(path@, sep, i as int, last_of(path@, sep));
            }
            Some(path.substring_char(0, i).to_owned())
        },
        None => None,
    }
}

} // verus!
