use vstd::prelude::*;
use vstd::string::*;

verus! {

/// The texts of a sequence of strings.
pub open spec fn texts(v: Seq<String>) -> Seq<Seq<char>> {
    v.map_values(|s: String| s@)
}

/// A fresh string holding the characters of `s`.
pub fn owned(s: &str) -> (r: String)
    ensures
        r@ == s@,
{
    String::from_str(s)
}

/// Whether `a` and `b` hold the same characters.
pub fn same_text(a: &str, b: &String) -> (r: bool)
    ensures
        r == (a@ == b@),
{
    let a = String::from_str(a);
    a == *b
}

/// `a` followed by `b`.
pub fn joined(a: &str, b: &str) -> (r: String)
    ensures
        r@ == a@ + b@,
{
    String::from_str(a).concat(b)
}

/// `a`, then `b`, then `c`.
pub fn joined3(a: &str, b: &str, c: &str) -> (r: String)
    ensures
        r@ == a@ + b@ + c@,
{
    String::from_str(a).concat(b).concat(c)
}

/// The first index below `n` at which `keys` holds `k`, or -1.
pub open spec fn first_upto<K>(keys: Seq<K>, k: K, n: int) -> int
    decreases n,
{
    if n <= 0 {
        -1
    } else {
        let r = first_upto(keys, k, n - 1);
        if r >= 0 {
            r
        } else if keys[n - 1] == k {
            n - 1
        } else {
            -1
        }
    }
}

/// The first index at which `keys` holds `k`, or -1 when it holds it nowhere.
pub open spec fn first_index<K>(keys: Seq<K>, k: K) -> int {
    first_upto(keys, k, keys.len() as int)
}

/// `first_upto` is -1 exactly when no index below `n` holds the key, and
/// otherwise names the first that does.
pub proof fn lemma_first_upto<K>(keys: Seq<K>, k: K, n: int)
    requires
        0 <= n <= keys.len(),
    ensures
        first_upto(keys, k, n) == -1 <==> (forall|j: int| 0 <= j < n ==> keys[j] != k),
        first_upto(keys, k, n) != -1 ==> {
            let r = first_upto(keys, k, n);
            &&& 0 <= r < n
            &&& keys[r] == k
            &&& forall|j: int| 0 <= j < r ==> keys[j] != k
        },
    decreases n,
{
    if n > 0 {
        lemma_first_upto(keys, k, n - 1);
    }
}

/// The first index at which the texts of `v` hold `k`, found by a scan.
pub fn find_text(v: &Vec<String>, k: &str) -> (r: Option<usize>)
    ensures
        match r {
            Some(i) => i == first_index(texts(v@), k@) && i < v@.len(),
            None => first_index(texts(v@), k@) == -1,
        },
{
    let mut i: usize = 0;
    while i < v.len()
        invariant
            i <= v@.len(),
            first_upto(texts(v@), k@, i as int) == -1,
        decreases v@.len() - i,
    {
        if same_text(k, &v[i]) {
            proof {
                assert(texts(v@)[i as int] == k@);
                lemma_first_upto(texts(v@), k@, v@.len() as int);
                lemma_first_upto(texts(v@), k@, i as int);
            }
            return Some(i);
        }
        i = i + 1;
    }
    None
}

/// Whether a text is made only of spaces, tabs, line feeds and carriage
/// returns.
pub open spec fn is_blank(s: Seq<char>) -> bool {
    forall|i: int| 0 <= i < s.len() ==> s[i] == ' ' || s[i] == '\t' || s[i] == '\n' || s[i] == '\r'
}

/// The lower-case form of a text, as std's `str::to_lowercase` gives it.
pub uninterp spec fn lower_of(s: Seq<char>) -> Seq<char>;

/// Relies on `str::to_lowercase`: the result is the lower-case mapping of
/// each character, so it depends on the characters alone; characters with
/// no lower-case form, such as spaces, tabs and line breaks, map to
/// themselves, so a blank string stays as it is.
#[verifier::external_body]
pub(crate) fn lowercase(s: &str) -> (r: String)
    ensures
        r@ == lower_of(s@),
        is_blank(s@) ==> r@ == s@,
{
    s.to_lowercase()
}

/// The whitespace-separated words of a text, as std's
/// `str::split_whitespace` gives them.
pub uninterp spec fn words_of(s: Seq<char>) -> Seq<Seq<char>>;

/// Relies on `str::split_whitespace`: the maximal runs of non-whitespace
/// characters, in order, which depend on the characters alone; a string of
/// spaces, tabs and line breaks alone (or no characters) has no words.
#[verifier::external_body]
pub(crate) fn split_words(s: &str) -> (r: Vec<String>)
    ensures
        texts(r@) == words_of(s@),
        is_blank(s@) ==> r@.len() == 0,
{
    s.split_whitespace().map(|w| w.to_string()).collect()
}

} // verus!
