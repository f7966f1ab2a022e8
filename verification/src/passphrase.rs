//! Invitation passphrases: a few words, written with hyphens in links and forms
//! and with spaces everywhere else.
use vstd::prelude::*;
use rand::seq::IndexedRandom;
use crate::origins::drawn_at_random;
use crate::text::{
    join, join_with, lemma_join_split, lemma_split_join, split, split_on, texts, to_lowercase, trim,
    lowercase_of, trimmed_of,
};

verus! {

/// The number of words of a generated passphrase.
pub const PASSPHRASE_WORDS: usize = 4;

/// A passphrase: its words, in order.
#[derive(Debug, Clone)]
pub struct Passphrase(pub Vec<String>);

/// A word as typed by a person, in lower case and without surrounding whitespace.
pub open spec fn normalized_word(w: Seq<char>) -> Seq<char> {
    trimmed_of(lowercase_of(w))
}

/// The normalised words.
pub open spec fn normalized_words(words: Seq<Seq<char>>) -> Seq<Seq<char>> {
    words.map_values(|w: Seq<char>| normalized_word(w))
}

/// A passphrase drawn from `wordlist`: as many words as a passphrase has, or all of
/// the list where it is shorter, each of them from the list, at distinct positions
/// of it that the random generator drew.
pub open spec fn drawn_from(words: Seq<String>, wordlist: Seq<String>) -> bool {
    &&& words.len() == if PASSPHRASE_WORDS < wordlist.len() { PASSPHRASE_WORDS as int } else { wordlist.len() as int }
    &&& forall|i: int| 0 <= i < words.len() ==> wordlist.contains(#[trigger] words[i])
    &&& exists|positions: Seq<usize>| {
        &&& #[trigger] drawn_at_random(positions)
        &&& positions.no_duplicates()
        &&& positions.len() == words.len()
        &&& forall|i: int| 0 <= i < positions.len() ==> positions[i] < wordlist.len() && words[i] == wordlist[positions[i] as int]
    }
}

/// Calls `IndexedRandom::choose_multiple` with the thread-local generator on a slice
/// of distinct values. Claimed, as its documentation says: `amount` of them, or all
/// of them where there are fewer, each at most once; which ones and their order is
/// chance, drawn with the generator.
#[verifier::external_body]
fn choose_multiple(items: &[usize], amount: usize) -> (chosen: Vec<usize>)
    requires
        items@.no_duplicates(),
    ensures
        drawn_at_random(chosen@),
        chosen@.len() == if amount < items@.len() { amount as int } else { items@.len() as int },
        chosen@.no_duplicates(),
        forall|i: int| 0 <= i < chosen@.len() ==> items@.contains(#[trigger] chosen@[i]),
{
    items.choose_multiple(&mut rand::rng(), amount).copied().collect()
}

impl Passphrase {
    /// A passphrase as written in a link: words separated by hyphens.
    pub fn from_form_field(value: &str) -> (passphrase: Passphrase)
        ensures
            texts(passphrase.0@) == normalized_words(split_on(value@, '-')),
    {
        let pieces = split(value, '-');
        Self::from_form_fields(pieces.as_slice())
    }

    /// A passphrase from words as typed by a person.
    pub fn from_form_fields(values: &[String]) -> (passphrase: Passphrase)
        ensures
            texts(passphrase.0@) == normalized_words(texts(values@)),
    {
        let mut words: Vec<String> = Vec::new();
        let mut i: usize = 0;
        while i < values.len()
            invariant
                i <= values@.len(),
                texts(words@) == normalized_words(texts(values@.take(i as int))),
            decreases values@.len() - i,
        {
            let lower = to_lowercase(values[i].as_str());
            let word = trim(lower.as_str()).to_owned();
            assert(word@ == normalized_word(values@[i as int]@));
            let ghost before = words@;
            words.push(word);
            assert(values@.take(i + 1) =~= values@.take(i as int).push(values@[i as int]));
            assert(texts(words@) =~= texts(before).push(word@));
            i = i + 1;
            assert(texts(words@) =~= normalized_words(texts(values@.take(i as int))));
        }
        assert(values@.take(i as int) =~= values@);
        Passphrase(words)
    }

    /// The passphrase as written in a link: words separated by hyphens.
    pub fn to_form_field(&self) -> (field: String)
        ensures
            field@ == join_with(texts(self.0@), '-'),
    {
        join(self.0.as_slice(), '-')
    }

    /// The passphrase as shown and stored: words separated by spaces.
    pub fn to_text(&self) -> (text: String)
        ensures
            text@ == join_with(texts(self.0@), ' '),
    {
        join(self.0.as_slice(), ' ')
    }

    /// A passphrase as stored: words separated by spaces.
    pub fn decode(text: &str) -> (passphrase: Passphrase)
        ensures
            texts(passphrase.0@) == split_on(text@, ' '),
    {
        Passphrase(split(text, ' '))
    }

    /// A passphrase of words picked at random from `wordlist`, each position at most
    /// once: the words at positions that the random generator drew.
    pub fn sample(wordlist: &[String]) -> (passphrase: Passphrase)
        ensures
            passphrase.0@.len() == if PASSPHRASE_WORDS < wordlist@.len() {
                PASSPHRASE_WORDS as int
            } else {
                wordlist@.len() as int
            },
            exists|positions: Seq<usize>| {
                &&& #[trigger] drawn_at_random(positions)
                &&& positions.no_duplicates()
                &&& positions.len() == passphrase.0@.len()
                &&& forall|i: int| 0 <= i < positions.len() ==> positions[i] < wordlist@.len()
                    && passphrase.0@[i] == wordlist@[positions[i] as int]
            },
            drawn_from(passphrase.0@, wordlist@),
    {
        let mut positions: Vec<usize> = Vec::new();
        let mut i: usize = 0;
        while i < wordlist.len()
            invariant
                i <= wordlist@.len(),
                positions@ == Seq::new(i as nat, |k: int| k as usize),
            decreases wordlist@.len() - i,
        {
            positions.push(i);
            i = i + 1;
            assert(positions@ =~= Seq::new(i as nat, |k: int| k as usize));
        }
        let chosen = choose_multiple(positions.as_slice(), PASSPHRASE_WORDS);
        let mut words: Vec<String> = Vec::new();
        let mut j: usize = 0;
        while j < chosen.len()
            invariant
                j <= chosen@.len(),
                positions@ == Seq::new(wordlist@.len(), |k: int| k as usize),
                forall|k: int| 0 <= k < chosen@.len() ==> positions@.contains(#[trigger] chosen@[k]),
                words@.len() == j,
                forall|k: int| 0 <= k < j ==> chosen@[k] < wordlist@.len() && #[trigger] words@[k] == wordlist@[chosen@[k] as int],
            decreases chosen@.len() - j,
        {
            assert(positions@.contains(chosen@[j as int]));
            words.push(wordlist[chosen[j]].clone());
            j = j + 1;
        }
        assert forall|k: int| 0 <= k < words@.len() implies wordlist@.contains(#[trigger] words@[k]) by {
            assert(words@[k] == wordlist@[chosen@[k] as int]);
        }
        Passphrase(words)
    }
}

/// Storing a passphrase as text and reading it back gives the same words, when it
/// has words and none of them holds a space.
pub proof fn lemma_passphrase_text_round_trip(words: Seq<Seq<char>>)
    requires
        words.len() > 0,
        forall|i: int| 0 <= i < words.len() ==> !(#[trigger] words[i]).contains(' '),
    ensures
        split_on(join_with(words, ' '), ' ') == words,
{
    lemma_split_join(words, ' ');
}

/// Writing a passphrase into a link and reading it back gives the same words, when
/// it has words, none of them holds a hyphen, and each is already normalised.
pub proof fn lemma_passphrase_form_round_trip(words: Seq<Seq<char>>)
    requires
        words.len() > 0,
        forall|i: int| 0 <= i < words.len() ==> !(#[trigger] words[i]).contains('-'),
        forall|i: int| 0 <= i < words.len() ==> normalized_word(#[trigger] words[i]) == words[i],
    ensures
        normalized_words(split_on(join_with(words, '-'), '-')) == words,
{
    lemma_split_join(words, '-');
    assert(normalized_words(words) =~= words);
}

/// Reading a passphrase from a link and writing it back gives the same text, when
/// each of its hyphen-separated parts is already normalised.
pub proof fn lemma_form_field_round_trip(value: Seq<char>)
    requires
        forall|i: int| 0 <= i < split_on(value, '-').len()
            ==> normalized_word(#[trigger] split_on(value, '-')[i]) == split_on(value, '-')[i],
    ensures
        join_with(normalized_words(split_on(value, '-')), '-') == value,
{
    assert(normalized_words(split_on(value, '-')) =~= split_on(value, '-'));
    lemma_join_split(value, '-');
}

} // verus!
