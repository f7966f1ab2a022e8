//! Text helpers: characters of strings, building strings, and the case and
//! whitespace functions of the standard library.
use vstd::prelude::*;
use vstd::string::*;

verus! {

broadcast use vstd::string::group_string_axioms;

/// The characters of a string slice.
pub fn chars_of(s: &str) -> (cs: Vec<char>)
    ensures
        cs@ == s@,
{
    let mut cs: Vec<char> = Vec::new();
    for c in it: s.chars()
        invariant
            cs@ == it.seq().take(it.index() as int),
            it.seq() == s@,
    {
        cs.push(c);
        assert(cs@ =~= it.seq().take(it.index() as int + 1));
    }
    assert(cs@ =~= s@);
    cs
}

/// Calls `String::push`, which appends a character.
#[verifier::external_body]
pub(crate) fn push_char(s: &mut String, c: char)
    ensures
        final(s)@ == old(s)@.push(c),
{
    s.push(c)
}

/// A string of the given characters.
pub fn string_of(cs: &[char]) -> (s: String)
    ensures
        s@ == cs@,
{
    let mut s = String::new();
    let mut i: usize = 0;
    while i < cs.len()
        invariant
            i <= cs@.len(),
            s@ == cs@.take(i as int),
        decreases cs@.len() - i,
    {
        push_char(&mut s, cs[i]);
        i = i + 1;
        assert(s@ =~= cs@.take(i as int));
    }
    assert(cs@.take(i as int) =~= cs@);
    s
}

/// Appends the characters of `t` to `s`.
pub fn push_str(s: &mut String, t: &str)
    ensures
        final(s)@ == old(s)@ + t@,
{
    let cs = chars_of(t);
    let ghost start = s@;
    let mut i: usize = 0;
    while i < cs.len()
        invariant
            i <= cs@.len(),
            cs@ == t@,
            s@ == start + cs@.take(i as int),
        decreases cs@.len() - i,
    {
        push_char(s, cs[i]);
        i = i + 1;
        assert(s@ =~= start + cs@.take(i as int));
    }
    assert(cs@.take(i as int) =~= cs@);
}

/// The text of each string.
pub open spec fn texts(strings: Seq<String>) -> Seq<Seq<char>> {
    strings.map_values(|s: String| s@)
}

/// The pieces of `s` between occurrences of `sep`, as `str::split` yields them:
/// empty pieces included, and one empty piece for empty text.
pub open spec fn split_on(s: Seq<char>, sep: char) -> Seq<Seq<char>>
    decreases s.len(),
{
    if s.len() == 0 {
        seq![Seq::empty()]
    } else {
        let pieces = split_on(s.drop_last(), sep);
        if s.last() == sep {
            pieces.push(Seq::empty())
        } else {
            pieces.update(pieces.len() - 1, pieces.last().push(s.last()))
        }
    }
}

/// The words joined with `sep` between each two of them.
pub open spec fn join_with(words: Seq<Seq<char>>, sep: char) -> Seq<char>
    decreases words.len(),
{
    if words.len() == 0 {
        Seq::empty()
    } else if words.len() == 1 {
        words[0]
    } else {
        join_with(words.drop_last(), sep).push(sep) + words.last()
    }
}

pub proof fn lemma_split_on_len(s: Seq<char>, sep: char)
    ensures
        split_on(s, sep).len() >= 1,
    decreases s.len(),
{
    if s.len() > 0 {
        lemma_split_on_len(s.drop_last(), sep);
    }
}

/// The pieces of `s` between occurrences of `sep`.
pub fn split(s: &str, sep: char) -> (pieces: Vec<String>)
    ensures
        texts(pieces@) == split_on(s@, sep),
{
    let cs = chars_of(s);
    let mut pieces: Vec<String> = Vec::new();
    let mut current = String::new();
    let mut i: usize = 0;
    while i < cs.len()
        invariant
            i <= cs@.len(),
            cs@ == s@,
            texts(pieces@).push(current@) == split_on(cs@.take(i as int), sep),
        decreases cs@.len() - i,
    {
        proof {
            lemma_split_on_len(cs@.take(i as int), sep);
            assert(cs@.take(i + 1).drop_last() =~= cs@.take(i as int));
        }
        let ghost before = texts(pieces@).push(current@);
        if cs[i] == sep {
            let finished = current;
            pieces.push(finished);
            current = String::new();
            assert(texts(pieces@).push(current@) =~= before.push(Seq::empty()));
        } else {
            push_char(&mut current, cs[i]);
            assert(texts(pieces@).push(current@) =~= before.update(before.len() - 1, before.last().push(cs@[i as int])));
        }
        i = i + 1;
    }
    assert(cs@.take(i as int) =~= cs@);
    pieces.push(current);
    assert(texts(pieces@) =~= split_on(s@, sep));
    pieces
}

/// The strings joined with `sep` between each two of them.
pub fn join(words: &[String], sep: char) -> (joined: String)
    ensures
        joined@ == join_with(texts(words@), sep),
{
    let mut joined = String::new();
    let mut i: usize = 0;
    while i < words.len()
        invariant
            i <= words@.len(),
            joined@ == join_with(texts(words@.take(i as int)), sep),
        decreases words@.len() - i,
    {
        assert(texts(words@.take(i + 1)).drop_last() =~= texts(words@.take(i as int)));
        if i > 0 {
            push_char(&mut joined, sep);
        }
        push_str(&mut joined, words[i].as_str());
        i = i + 1;
        if i == 1 {
            assert(joined@ =~= join_with(texts(words@.take(i as int)), sep));
        }
    }
    assert(words@.take(i as int) =~= words@);
    joined
}

/// A text without `sep` is a single piece.
pub proof fn lemma_split_without_separator(w: Seq<char>, sep: char)
    requires
        !w.contains(sep),
    ensures
        split_on(w, sep) == seq![w],
    decreases w.len(),
{
    if w.len() > 0 {
        assert(!w.drop_last().contains(sep)) by {
            if w.drop_last().contains(sep) {
                let k = choose|k: int| 0 <= k < w.drop_last().len() && w.drop_last()[k] == sep;
                assert(w[k] == sep);
            }
        }
        lemma_split_without_separator(w.drop_last(), sep);
        assert(w.last() != sep) by {
            assert(w[w.len() - 1] == w.last());
        }
        assert(w.drop_last().push(w.last()) =~= w);
    } else {
        assert(w =~= Seq::<char>::empty());
    }
}

/// Splitting text followed by a separator and a word without separators gives the
/// pieces of the text followed by the word.
pub proof fn lemma_split_append(s: Seq<char>, w: Seq<char>, sep: char)
    requires
        !w.contains(sep),
    ensures
        split_on(s.push(sep) + w, sep) == split_on(s, sep).push(w),
    decreases w.len(),
{
    if w.len() == 0 {
        assert(s.push(sep) + w =~= s.push(sep));
        assert(s.push(sep).drop_last() =~= s);
        assert(w =~= Seq::<char>::empty());
    } else {
        let w0 = w.drop_last();
        assert(!w0.contains(sep)) by {
            if w0.contains(sep) {
                let k = choose|k: int| 0 <= k < w0.len() && w0[k] == sep;
                assert(w[k] == sep);
            }
        }
        lemma_split_append(s, w0, sep);
        assert(w.last() != sep) by {
            assert(w[w.len() - 1] == w.last());
        }
        assert((s.push(sep) + w).drop_last() =~= s.push(sep) + w0);
        assert((s.push(sep) + w).last() == w.last());
        assert(w0.push(w.last()) =~= w);
        lemma_split_on_len(s, sep);
        let p = split_on(s, sep).push(w0);
        assert(split_on(s.push(sep) + w, sep) == p.update(p.len() - 1, p.last().push(w.last())));
        assert(p.update(p.len() - 1, p.last().push(w.last())) =~= split_on(s, sep).push(w));
    }
}

/// Splitting text and joining the pieces with the same separator gives the text back.
pub proof fn lemma_join_split(s: Seq<char>, sep: char)
    ensures
        join_with(split_on(s, sep), sep) == s,
    decreases s.len(),
{
    if s.len() == 0 {
        assert(s =~= Seq::<char>::empty());
    } else {
        let rest = s.drop_last();
        let pieces = split_on(rest, sep);
        lemma_join_split(rest, sep);
        lemma_split_on_len(rest, sep);
        if s.last() == sep {
            let next = pieces.push(Seq::empty());
            assert(next.drop_last() =~= pieces);
            assert(join_with(next, sep) =~= rest.push(sep));
        } else {
            let n = pieces.len();
            let next = pieces.update(n - 1, pieces.last().push(s.last()));
            if n == 1 {
                assert(join_with(next, sep) =~= rest.push(s.last()));
            } else {
                assert(next.drop_last() =~= pieces.drop_last());
                assert(join_with(pieces, sep) == join_with(pieces.drop_last(), sep).push(sep) + pieces.last());
                assert(join_with(next, sep) =~= rest.push(s.last()));
            }
        }
        assert(rest.push(s.last()) =~= s);
    }
}

/// Joining words that hold no separator and splitting the result gives the words
/// back, when there is at least one word.
pub proof fn lemma_split_join(words: Seq<Seq<char>>, sep: char)
    requires
        words.len() > 0,
        forall|i: int| 0 <= i < words.len() ==> !(#[trigger] words[i]).contains(sep),
    ensures
        split_on(join_with(words, sep), sep) == words,
    decreases words.len(),
{
    if words.len() == 1 {
        lemma_split_without_separator(words[0], sep);
        assert(seq![words[0]] =~= words);
    } else {
        let rest = words.drop_last();
        assert forall|i: int| 0 <= i < rest.len() implies !(#[trigger] rest[i]).contains(sep) by {
            assert(rest[i] == words[i]);
        }
        lemma_split_join(rest, sep);
        assert(!words.last().contains(sep)) by {
            assert(words[words.len() - 1] == words.last());
        }
        lemma_split_append(join_with(rest, sep), words.last(), sep);
        assert(rest.push(words.last()) =~= words);
    }
}

/// The lower-case form of a text, as `str::to_lowercase` computes it.
pub uninterp spec fn lowercase_of(s: Seq<char>) -> Seq<char>;

/// A text without its leading and trailing whitespace, as `str::trim` computes it.
pub uninterp spec fn trimmed_of(s: Seq<char>) -> Seq<char>;

/// Calls `str::to_lowercase`. Claimed: the result depends on the text alone.
#[verifier::external_body]
pub(crate) fn to_lowercase(s: &str) -> (lower: String)
    ensures
        lower@ == lowercase_of(s@),
{
    s.to_lowercase()
}

/// Calls `str::trim`. Claimed: the result depends on the text alone.
#[verifier::external_body]
pub(crate) fn trim(s: &str) -> (trimmed: &str)
    ensures
        trimmed@ == trimmed_of(s@),
{
    s.trim()
}

/// Whether two texts are equal, character by character.
pub fn str_eq(a: &str, b: &str) -> (equal: bool)
    ensures
        equal == (a@ == b@),
{
    let a_chars = chars_of(a);
    let b_chars = chars_of(b);
    if a_chars.len() != b_chars.len() {
        return false;
    }
    let mut i: usize = 0;
    while i < a_chars.len()
        invariant
            i <= a_chars@.len(),
            a_chars@.len() == b_chars@.len(),
            a_chars@ == a@,
            b_chars@ == b@,
            forall|k: int| 0 <= k < i ==> a@[k] == b@[k],
        decreases a_chars@.len() - i,
    {
        if a_chars[i] != b_chars[i] {
            return false;
        }
        i = i + 1;
    }
    assert(a@ =~= b@);
    true
}

} // verus!
