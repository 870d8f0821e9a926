//! Character-level helpers: ASCII case folding and comparison of names.

use vstd::prelude::*;

verus! {

/// The lower-case form of an ASCII capital letter; every other character is
/// left as it is.
pub open spec fn fold_char(c: char) -> char {
    if 'A' <= c && c <= 'Z' {
        ((c as u8) + 32) as char
    } else {
        c
    }
}

/// A sequence of characters with every ASCII capital letter folded.
pub open spec fn folded(s: Seq<char>) -> Seq<char> {
    s.map_values(|c: char| fold_char(c))
}

/// Two names are the same up to the case of their ASCII letters.
pub open spec fn same_ignoring_case(a: Seq<char>, b: Seq<char>) -> bool {
    folded(a) == folded(b)
}

/// Character-wise statement of `same_ignoring_case`.
pub proof fn lemma_same_ignoring_case(a: Seq<char>, b: Seq<char>)
    ensures
        same_ignoring_case(a, b) <==> (a.len() == b.len() && forall|i: int|
            0 <= i < a.len() ==> fold_char(a[i]) == fold_char(b[i])),
{
    if a.len() == b.len() && (forall|i: int|
        0 <= i < a.len() ==> fold_char(a[i]) == fold_char(b[i])) {
        assert(folded(a) =~= folded(b));
    }
    if same_ignoring_case(a, b) {
        assert(folded(a).len() == folded(b).len());
        assert forall|i: int| 0 <= i < a.len() implies fold_char(a[i]) == fold_char(b[i]) by {
            assert(folded(a)[i] == folded(b)[i]);
        }
    }
}

/// Folds one character.
pub fn fold(c: char) -> (r: char)
    ensures
        r == fold_char(c),
{
    if 'A' <= c && c <= 'Z' {
        let b: u8 = c as u8;
        (b + 32) as char
    } else {
        c
    }
}

/// The characters of a string, in order.
pub fn chars_of(s: &str) -> (v: Vec<char>)
    ensures
        v@ == s@,
{
    let mut v: Vec<char> = Vec::new();
    for c in it: s.chars()
        invariant
            v@ == it.seq().take(it.index() as int),
            it.seq() == s@,
    {
        v.push(c);
        assert(it.seq().take(it.index() + 1) =~= it.seq().take(it.index() as int).push(c));
    }
    assert(v@ =~= s@);
    v
}

/// Whether two character sequences are equal up to ASCII case.
pub fn chars_eq_ignoring_case(a: &Vec<char>, b: &Vec<char>) -> (r: bool)
    ensures
        r == same_ignoring_case(a@, b@),
{
    if a.len() != b.len() {
        proof {
            lemma_same_ignoring_case(a@, b@);
        }
        return false;
    }
    let mut i: usize = 0;
    while i < a.len()
        invariant
            i <= a.len(),
            a.len() == b.len(),
            forall|j: int| 0 <= j < i ==> fold_char(a@[j]) == fold_char(b@[j]),
        decreases a.len() - i,
    {
        if fold(a[i]) != fold(b[i]) {
            proof {
                lemma_same_ignoring_case(a@, b@);
            }
            return false;
        }
        i += 1;
    }
    proof {
        lemma_same_ignoring_case(a@, b@);
    }
    true
}

/// The position of the last `.` in `name`, or -1 when it holds none.
pub open spec fn last_dot(name: Seq<char>) -> int
    decreases name.len(),
{
    if name.len() == 0 {
        -1
    } else if name.last() == '.' {
        name.len() - 1
    } else {
        last_dot(name.drop_last())
    }
}

/// The extension of a file name: what follows its last `.`, provided that
/// `.` is not the name's first character and the name is not `..`; empty
/// otherwise.
pub open spec fn extension_of(name: Seq<char>) -> Seq<char> {
    let d = last_dot(name);
    if d <= 0 || name == seq!['.', '.'] {
        Seq::<char>::empty()
    } else {
        name.skip(d + 1)
    }
}

/// `last_dot` is the greatest index that holds a `.`.
pub proof fn lemma_last_dot(name: Seq<char>)
    ensures
        -1 <= last_dot(name) < name.len(),
        last_dot(name) >= 0 ==> name[last_dot(name)] == '.',
        forall|i: int| last_dot(name) < i < name.len() ==> name[i] != '.',
    decreases name.len(),
{
    if name.len() > 0 && name.last() != '.' {
        let rest = name.drop_last();
        lemma_last_dot(rest);
        assert forall|i: int| last_dot(name) < i < name.len() implies name[i] != '.' by {
            if i < rest.len() {
                assert(rest[i] == name[i]);
            }
        }
    }
}

/// The extension of a file name given as characters.
pub fn extension_chars(name: &Vec<char>) -> (ext: Vec<char>)
    ensures
        ext@ == extension_of(name@),
{
    let n: usize = name.len();
    let mut d: usize = n;
    let mut found: bool = false;
    while d > 0 && !found
        invariant
            d <= n,
            n == name.len(),
            found ==> d < n && name@[d as int] == '.',
            forall|i: int| (if found { d + 1 } else { d as int }) <= i < n ==> name@[i] != '.',
        decreases d + (if found { 0int } else { 1int }),
    {
        d -= 1;
        if name[d] == '.' {
            found = true;
        }
    }
    proof {
        lemma_last_dot(name@);
        if found {
            assert(last_dot(name@) == d);
        } else {
            assert(last_dot(name@) == -1);
        }
    }
    let mut ext: Vec<char> = Vec::new();
    if !found || d == 0 || (n == 2 && name[0] == '.' && name[1] == '.') {
        proof {
            if n == 2 && name@[0] == '.' && name@[1] == '.' {
                assert(name@ =~= seq!['.', '.']);
            }
        }
        return ext;
    }
    assert(name@ != seq!['.', '.']) by {
        if name@ == seq!['.', '.'] {
            assert(name@.len() == 2);
            assert(name@[0] == '.' && name@[1] == '.');
        }
    }
    let mut i: usize = d + 1;
    while i < n
        invariant
            d + 1 <= i <= n,
            n == name.len(),
            ext@ == name@.subrange(d + 1, i as int),
        decreases n - i,
    {
        ext.push(name[i]);
        assert(name@.subrange(d + 1, i + 1) =~= name@.subrange(d + 1, i as int).push(name@[i as int]));
        i += 1;
    }
    assert(ext@ =~= name@.skip(d + 1));
    ext
}

/// Whether two strings hold the same characters.
pub fn str_equal(a: &str, b: &str) -> (r: bool)
    ensures
        r == (a@ == b@),
{
    let x = chars_of(a);
    let y = chars_of(b);
    if x.len() != y.len() {
        return false;
    }
    let mut i: usize = 0;
    while i < x.len()
        invariant
            i <= x.len(),
            x.len() == y.len(),
            x@ == a@,
            y@ == b@,
            forall|j: int| 0 <= j < i ==> x@[j] == y@[j],
        decreases x.len() - i,
    {
        if x[i] != y[i] {
            assert(a@[i as int] != b@[i as int]);
            return false;
        }
        i += 1;
    }
    assert(x@ =~= y@);
    true
}

/// Whether two strings are equal up to ASCII case.
pub fn eq_ignoring_case(a: &str, b: &str) -> (r: bool)
    ensures
        r == same_ignoring_case(a@, b@),
{
    let x = chars_of(a);
    let y = chars_of(b);
    chars_eq_ignoring_case(&x, &y)
}

} // verus!
