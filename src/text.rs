use vstd::prelude::*;

verus! {

broadcast use vstd::string::axiom_spec_iter;

/// Unicode White_Space: the characters that separate words of a line.
pub open spec fn is_space(c: char) -> bool {
    ('\u{9}' <= c && c <= '\u{d}') || c == ' ' || c == '\u{85}' || c == '\u{a0}'
        || c == '\u{1680}' || ('\u{2000}' <= c && c <= '\u{200a}') || c == '\u{2028}'
        || c == '\u{2029}' || c == '\u{202f}' || c == '\u{205f}' || c == '\u{3000}'
}

/// The maximal runs of non-space characters of `s`, left to right.
pub open spec fn words(s: Seq<char>) -> Seq<Seq<char>>
    decreases s.len(),
{
    if s.len() == 0 {
        Seq::empty()
    } else {
        let p = s.drop_last();
        let c = s.last();
        let w = words(p);
        if is_space(c) {
            w
        } else if p.len() > 0 && !is_space(p.last()) {
            w.update(w.len() - 1, w.last().push(c))
        } else {
            w.push(seq![c])
        }
    }
}

/// The contents of each word of a vector of words.
pub open spec fn views_of(v: Seq<Vec<char>>) -> Seq<Seq<char>> {
    v.map_values(|w: Vec<char>| w@)
}

pub fn is_space_char(c: char) -> (r: bool)
    ensures
        r == is_space(c),
{
    ('\u{9}' <= c && c <= '\u{d}') || c == ' ' || c == '\u{85}' || c == '\u{a0}'
        || c == '\u{1680}' || ('\u{2000}' <= c && c <= '\u{200a}') || c == '\u{2028}'
        || c == '\u{2029}' || c == '\u{202f}' || c == '\u{205f}' || c == '\u{3000}'
}

/// The characters of `s`, in order.
pub fn chars_of(s: &str) -> (r: Vec<char>)
    ensures
        r@ == s@,
{
    let mut r: Vec<char> = Vec::new();
    for c in it: s.chars()
        invariant
            r@ == it.history(),
            it.seq() == s@,
    {
        r.push(c);
    }
    r
}

/// Splits a line into its whitespace-separated words.
pub fn split_words(line: &str) -> (r: Vec<Vec<char>>)
    ensures
        views_of(r@) == words(line@),
{
    let s = chars_of(line);
    let mut r: Vec<Vec<char>> = Vec::new();
    let mut cur: Vec<char> = Vec::new();
    let mut in_word = false;
    let mut i: usize = 0;
    while i < s.len()
        invariant
            s@ == line@,
            0 <= i <= s@.len(),
            in_word == (i > 0 && !is_space(s@[i - 1])),
            in_word ==> views_of(r@).push(cur@) == words(s@.take(i as int)),
            !in_word ==> views_of(r@) == words(s@.take(i as int)),
        decreases s@.len() - i,
    {
        let c = s[i];
        proof {
            let t = s@.take(i as int + 1);
            assert(t.drop_last() =~= s@.take(i as int));
            assert(t.last() == c);
            if i > 0 {
                assert(s@.take(i as int).last() == s@[i - 1]);
            }
        }
        if is_space_char(c) {
            if in_word {
                let ghost r0 = r@;
                let ghost c0 = cur@;
                r.push(cur);
                cur = Vec::new();
                assert(views_of(r@) =~= views_of(r0).push(c0));
            }
            in_word = false;
        } else {
            if !in_word {
                cur = Vec::new();
            }
            cur.push(c);
            in_word = true;
        }
        i = i + 1;
    }
    if in_word {
        let ghost r0 = r@;
        let ghost c0 = cur@;
        r.push(cur);
        assert(views_of(r@) =~= views_of(r0).push(c0));
    }
    proof {
        assert(s@.take(s@.len() as int) =~= s@);
    }
    r
}

} // verus!

verus! {

/// Whether the word `t` is `w`, character for character.
pub fn word_is(t: &Vec<char>, w: &str) -> (r: bool)
    ensures
        r == (t@ == w@),
{
    let v = chars_of(w);
    if t.len() != v.len() {
        return false;
    }
    let mut i: usize = 0;
    while i < t.len()
        invariant
            v@ == w@,
            t@.len() == v@.len(),
            0 <= i <= t@.len(),
            forall|j: int| 0 <= j < i ==> t@[j] == v@[j],
        decreases t@.len() - i,
    {
        if t[i] != v[i] {
            return false;
        }
        i = i + 1;
    }
    assert(t@ =~= v@);
    true
}

} // verus!

verus! {

/// Appends the characters of `w` to `dst`.
pub fn append_chars(dst: &mut Vec<char>, w: &Vec<char>)
    ensures
        final(dst)@ == old(dst)@ + w@,
{
    let mut i: usize = 0;
    while i < w.len()
        invariant
            0 <= i <= w@.len(),
            dst@ == old(dst)@ + w@.take(i as int),
        decreases w@.len() - i,
    {
        dst.push(w[i]);
        i = i + 1;
        assert(dst@ =~= old(dst)@ + w@.take(i as int));
    }
    assert(w@.take(w@.len() as int) =~= w@);
}

/// A copy of a word.
pub fn copy_word(w: &Vec<char>) -> (r: Vec<char>)
    ensures
        r@ == w@,
{
    let mut r: Vec<char> = Vec::new();
    append_chars(&mut r, w);
    r
}

/// Copies of the words `ws[from..]`.
pub fn copy_words_from(ws: &Vec<Vec<char>>, from: usize) -> (r: Vec<Vec<char>>)
    requires
        from <= ws@.len(),
    ensures
        views_of(r@) == views_of(ws@).skip(from as int),
{
    let mut r: Vec<Vec<char>> = Vec::new();
    let mut i: usize = from;
    while i < ws.len()
        invariant
            from <= i <= ws@.len(),
            views_of(r@) == views_of(ws@).subrange(from as int, i as int),
        decreases ws@.len() - i,
    {
        let w = copy_word(&ws[i]);
        let ghost r0 = r@;
        r.push(w);
        assert(views_of(r@) =~= views_of(ws@).subrange(from as int, i + 1)) by {
            assert(views_of(r@) =~= views_of(r0).push(w@));
        }
        i = i + 1;
    }
    assert(views_of(ws@).subrange(from as int, ws@.len() as int) =~= views_of(ws@).skip(from as int));
    r
}

} // verus!
