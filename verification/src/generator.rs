//! Random nicknames: an adjective, a noun and a number from 1 to 999999.

use vstd::prelude::*;
use crate::nickname::{UserNickname, nickname_is_valid};
use crate::text::{decimal, push_decimal, text, lemma_decimal_len_bound, pow10};

verus! {

/// What makes nicknames for new users.
pub trait NicknameGenerator {
    fn generate(&self) -> UserNickname;
}

/// The adjectives a random nickname starts with.
pub open spec fn adjectives() -> Seq<&'static str> {
    seq!["현명한", "고요한", "날렵한", "용감한", "슬기로운", "신중한", "빛나는", "강력한", "평화로운", "단단한", "즐거운", "정확한"]
}

/// The nouns that follow the adjective.
pub open spec fn nouns() -> Seq<&'static str> {
    seq!["기사", "바둑알", "고수", "흑돌", "백돌", "장인", "승부사", "호랑이", "거북이", "학", "바람", "강물", "대나무"]
}

/// The smallest number a random nickname ends with.
pub const NICKNAME_NUMBER_MIN: u64 = 1;

/// The largest number a random nickname ends with.
pub const NICKNAME_NUMBER_MAX: u64 = 999999;

/// The nickname made of an adjective, a noun and a number.
pub open spec fn nickname_of(adjective: &str, noun: &str, number: nat) -> Seq<char> {
    adjective@ + noun@ + decimal(number)
}

/// Whether `value` is a nickname that the generator can make.
pub open spec fn is_generated_nickname(value: Seq<char>) -> bool {
    exists|i: int, j: int, n: nat|
        0 <= i < adjectives().len() && 0 <= j < nouns().len() && NICKNAME_NUMBER_MIN <= n
            <= NICKNAME_NUMBER_MAX && value == #[trigger] nickname_of(adjectives()[i], nouns()[j], n)
}

fn adjective_words() -> (r: Vec<&'static str>)
    ensures
        r@ == adjectives(),
{
    let mut r: Vec<&'static str> = Vec::new();
    r.push("현명한");
    r.push("고요한");
    r.push("날렵한");
    r.push("용감한");
    r.push("슬기로운");
    r.push("신중한");
    r.push("빛나는");
    r.push("강력한");
    r.push("평화로운");
    r.push("단단한");
    r.push("즐거운");
    r.push("정확한");
    assert(r@ =~= adjectives());
    r
}

fn noun_words() -> (r: Vec<&'static str>)
    ensures
        r@ == nouns(),
{
    let mut r: Vec<&'static str> = Vec::new();
    r.push("기사");
    r.push("바둑알");
    r.push("고수");
    r.push("흑돌");
    r.push("백돌");
    r.push("장인");
    r.push("승부사");
    r.push("호랑이");
    r.push("거북이");
    r.push("학");
    r.push("바람");
    r.push("강물");
    r.push("대나무");
    assert(r@ =~= nouns());
    r
}

/// `rand::seq::IndexedRandom::choose` on the thread's generator: `None` for
/// an empty list, else one of its words. Which word is not stated.
#[verifier::external_body]
fn choose_word(words: &[&'static str]) -> (r: Option<&'static str>)
    ensures
        r is None <==> words@.len() == 0,
        r matches Some(w) ==> words@.contains(w),
{
    rand::seq::IndexedRandom::choose(words, &mut rand::rng()).copied()
}

/// `rand::Rng::random_range(1..=999999)` on the thread's generator: some
/// number in that range. Which one is not stated.
#[verifier::external_body]
fn random_number() -> (n: u64)
    ensures
        NICKNAME_NUMBER_MIN <= n <= NICKNAME_NUMBER_MAX,
{
    rand::Rng::random_range(&mut rand::rng(), NICKNAME_NUMBER_MIN..=NICKNAME_NUMBER_MAX)
}

/// The nickname made of the given adjective, noun and number.
pub fn compose_nickname(adjective: &str, noun: &str, number: u64) -> (r: UserNickname)
    ensures
        r@ == nickname_of(adjective, noun, number as nat),
{
    let mut value = text(adjective);
    value.append(noun);
    push_decimal(&mut value, number);
    UserNickname::new(value)
}

/// The drawn word, or `fallback` where none was drawn.
pub open spec fn drawn_or(word: Option<&'static str>, fallback: &'static str) -> &'static str {
    match word {
        Some(w) => w,
        None => fallback,
    }
}

/// A nickname from the given source of draws: `draw_word` draws the adjective
/// from the adjectives and the noun from the nouns, `draw_number` draws the
/// number, and the nickname is those three, one after the other.
pub fn generate_nickname_with<C, N>(draw_word: &C, draw_number: &N) -> (r: UserNickname) where
    C: Fn(&[&'static str]) -> Option<&'static str>,
    N: Fn() -> u64,

    requires
        forall|w: &[&'static str]| draw_word.requires((w,)),
        draw_number.requires(()),
    ensures
        exists|w1: &[&'static str], w2: &[&'static str], a: Option<&'static str>, b: Option<&'static str>, k: u64|
            w1@ == adjectives() && w2@ == nouns() && draw_word.ensures((w1,), a) && draw_word.ensures((w2,), b)
                && draw_number.ensures((), k) && #[trigger] r@ == nickname_of(
                drawn_or(a, "슬기로운"),
                drawn_or(b, "바둑알"),
                k as nat,
            ),
{
    let adjective_list = adjective_words();
    let noun_list = noun_words();
    let a = draw_word(adjective_list.as_slice());
    let b = draw_word(noun_list.as_slice());
    let adjective = match a {
        Some(w) => w,
        None => "슬기로운",
    };
    let noun = match b {
        Some(w) => w,
        None => "바둑알",
    };
    let k = draw_number();
    let r = compose_nickname(adjective, noun, k);
    proof {
        assert(r@ == nickname_of(drawn_or(a, "슬기로운"), drawn_or(b, "바둑알"), k as nat));
    }
    r
}

/// Makes random nicknames.
#[derive(Debug)]
pub struct NicknameGeneratorImpl;

impl NicknameGenerator for NicknameGeneratorImpl {
    /// A random adjective, a random noun and a random number from 1 to
    /// 999999, written one after the other.
    fn generate(&self) -> (r: UserNickname)
        ensures
            is_generated_nickname(r@),
    {
        let draw_word = |words: &[&'static str]| -> (w: Option<&'static str>)
            ensures
                w is None <==> words@.len() == 0,
                w matches Some(x) ==> words@.contains(x),
            { choose_word(words) };
        let draw_number = || -> (n: u64)
            ensures
                NICKNAME_NUMBER_MIN <= n <= NICKNAME_NUMBER_MAX,
            { random_number() };
        let r = generate_nickname_with(&draw_word, &draw_number);
        proof {
            let (w1, w2, a, b, k) = choose|w1: &[&'static str], w2: &[&'static str], a: Option<&'static str>, b: Option<&'static str>, k: u64|
                w1@ == adjectives() && w2@ == nouns() && draw_word.ensures((w1,), a) && draw_word.ensures((w2,), b)
                    && draw_number.ensures((), k) && #[trigger] r@ == nickname_of(
                    drawn_or(a, "슬기로운"),
                    drawn_or(b, "바둑알"),
                    k as nat,
                );
            let adjective = drawn_or(a, "슬기로운");
            let noun = drawn_or(b, "바둑알");
            let i = choose|i: int| 0 <= i < adjectives().len() && adjectives()[i] == adjective;
            let j = choose|j: int| 0 <= j < nouns().len() && nouns()[j] == noun;
            assert(r@ == nickname_of(adjectives()[i], nouns()[j], k as nat));
        }
        r
    }
}

/// Every nickname that the generator can make passes the length rule: the
/// longest adjective has 4 characters, the longest noun 3, the number at most
/// 6 digits.
pub proof fn lemma_generated_nickname_is_valid(value: Seq<char>)
    requires
        is_generated_nickname(value),
    ensures
        nickname_is_valid(value),
{
    let (i, j, n) = choose|i: int, j: int, n: nat|
        0 <= i < adjectives().len() && 0 <= j < nouns().len() && NICKNAME_NUMBER_MIN <= n
            <= NICKNAME_NUMBER_MAX && value == #[trigger] nickname_of(adjectives()[i], nouns()[j], n);
    lemma_adjective_lengths(i);
    lemma_noun_lengths(j);
    lemma_decimal_len_bound(n, 6);
    reveal_with_fuel(pow10, 7);
}

proof fn lemma_adjective_lengths(i: int)
    requires
        0 <= i < adjectives().len(),
    ensures
        1 <= adjectives()[i]@.len() <= 4,
{
    reveal_strlit("현명한");
    reveal_strlit("고요한");
    reveal_strlit("날렵한");
    reveal_strlit("용감한");
    reveal_strlit("슬기로운");
    reveal_strlit("신중한");
    reveal_strlit("빛나는");
    reveal_strlit("강력한");
    reveal_strlit("평화로운");
    reveal_strlit("단단한");
    reveal_strlit("즐거운");
    reveal_strlit("정확한");
}

proof fn lemma_noun_lengths(j: int)
    requires
        0 <= j < nouns().len(),
    ensures
        1 <= nouns()[j]@.len() <= 3,
{
    reveal_strlit("기사");
    reveal_strlit("바둑알");
    reveal_strlit("고수");
    reveal_strlit("흑돌");
    reveal_strlit("백돌");
    reveal_strlit("장인");
    reveal_strlit("승부사");
    reveal_strlit("호랑이");
    reveal_strlit("거북이");
    reveal_strlit("학");
    reveal_strlit("바람");
    reveal_strlit("강물");
    reveal_strlit("대나무");
}

} // verus!
