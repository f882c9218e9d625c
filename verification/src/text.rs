//! Small operations on text, stated over sequences of characters.

use vstd::prelude::*;

verus! {

/// `String::push` appends one character and leaves the rest as it was.
pub assume_specification[ String::push ](s: &mut String, c: char)
    ensures
        final(s)@ == old(s)@.push(c),
;

/// The number of characters of `s`.
pub fn char_count(s: &String) -> (n: usize)
    ensures
        n == s@.len(),
{
    s.as_str().unicode_len()
}

/// An owned copy of `s`.
pub fn owned(s: &str) -> (r: String)
    ensures
        r@ == s@,
{
    String::from_str(s)
}

/// The characters of `a` followed by those of `b`.
pub fn join(a: &str, b: &str) -> (r: String)
    ensures
        r@ == a@ + b@,
{
    let mut r = String::from_str(a);
    r.append(b);
    r
}

/// The characters of `s` from position `from` up to, not including, `to`.
pub fn slice(s: &String, from: usize, to: usize) -> (r: String)
    requires
        from <= to <= s@.len(),
    ensures
        r@ == s@.subrange(from as int, to as int),
{
    String::from_str(s.as_str().substring_char(from, to))
}

/// A title as it stands in a border: two blanks on either side.
pub open spec fn padded(title: Seq<char>) -> Seq<char> {
    seq![' ', ' '] + title + seq![' ', ' ']
}

/// `title` with two blanks on either side.
pub fn pad(title: &str) -> (r: String)
    ensures
        r@ == padded(title@),
{
    proof {
        reveal_strlit("  ");
    }
    let mut r = join("  ", title);
    r.append("  ");
    assert("  "@ =~= seq![' ', ' ']);
    r
}

/// The characters of `s`, in order.
pub fn chars(s: &str) -> (v: Vec<char>)
    ensures
        v@ == s@,
{
    let mut v: Vec<char> = Vec::new();
    for c in it: s.chars()
        invariant
            v@ == it.seq().take(it.index() as int),
            it.seq() == s@,
    {
        v.push(c);
    }
    v
}

/// `s` without its double quotes.
pub open spec fn unquoted(s: Seq<char>) -> Seq<char> {
    s.filter(|c: char| c != '"')
}

/// Takes every double quote out of `s` and keeps the rest in order.
pub fn without_quotes(s: &str) -> (r: String)
    ensures
        r@ == unquoted(s@),
{
    let all = chars(s);
    let mut r = String::new();
    let mut i: usize = 0;
    proof {
        reveal(Seq::filter);
    }
    assert(all@.take(0) =~= Seq::<char>::empty());
    while i < all.len()
        invariant
            i <= all.len(),
            r@ == unquoted(all@.take(i as int)),
        decreases all.len() - i,
    {
        let c = all[i];
        proof {
            assert(all@.take(i + 1) =~= all@.take(i as int).push(c));
            all@.take(i as int).lemma_filter_push(c, |c: char| c != '"');
        }
        if c != '"' {
            r.push(c);
        }
        i = i + 1;
    }
    assert(all@.take(all.len() as int) =~= all@);
    r
}

/// The characters of `all` from position `from` up to, not including, `to`,
/// as a text.
pub fn collect(all: &Vec<char>, from: usize, to: usize) -> (r: String)
    requires
        from <= to <= all.len(),
    ensures
        r@ == all@.subrange(from as int, to as int),
{
    let mut r = String::new();
    let mut i: usize = from;
    while i < to
        invariant
            from <= i <= to <= all.len(),
            r@ == all@.subrange(from as int, i as int),
        decreases to - i,
    {
        r.push(all[i]);
        assert(all@.subrange(from as int, i + 1) =~= all@.subrange(from as int, i as int).push(
            all[i as int],
        ));
        i = i + 1;
    }
    r
}

/// The first position from `from` on, and before `to`, at which `all` holds
/// `c`; `to` where it holds none there.
pub fn find(all: &Vec<char>, c: char, from: usize, to: usize) -> (at: usize)
    requires
        from <= to <= all.len(),
    ensures
        from <= at <= to,
        at < to ==> all[at as int] == c,
        forall|k: int| from <= k < at ==> all[k] != c,
{
    let mut at: usize = from;
    while at < to && all[at] != c
        invariant
            from <= at <= to <= all.len(),
            forall|k: int| from <= k < at ==> all[k] != c,
        decreases to - at,
    {
        at = at + 1;
    }
    at
}

/// The first position of `c` in `s` is `at`, given that `s` holds `c` there
/// and nowhere before; `s` holds no `c` at all, given that `at` is its length.
pub proof fn lemma_first_index(s: Seq<char>, c: char, at: int)
    requires
        0 <= at <= s.len(),
        at < s.len() ==> s[at] == c,
        forall|k: int| 0 <= k < at ==> s[k] != c,
    ensures
        s.index_of_first(c) == (if at < s.len() { Some(at) } else { None }),
{
    s.index_of_first_ensures(c);
}

/// The text that `found` holds, or `fallback` where it holds none.
pub fn or_text(found: Option<String>, fallback: &str) -> (r: String)
    ensures
        r@ == (match found {
            Some(text) => text@,
            None => fallback@,
        }),
{
    match found {
        Some(text) => text,
        None => owned(fallback),
    }
}

} // verus!
