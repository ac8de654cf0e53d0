//! Collision-resistant names for the generated wrapper functions.
//!
//! A name is drawn from a xoshiro128++ generator seeded with the current time
//! (in seconds) and a per-process call counter.

use rand::Rng;
use rand_xoshiro::rand_core::SeedableRng;
use rand_xoshiro::Xoshiro128PlusPlus;
use vstd::prelude::*;

verus! {

/// Length of every generated name.
pub const NAME_LEN: usize = 16;

#[verifier::external_type_specification]
#[verifier::external_body]
pub struct ExXoshiro128PlusPlus(Xoshiro128PlusPlus);

/// Byte `i` (little-endian) of a 64-bit value.
pub open spec fn byte_of(v: u64, i: int) -> u8 {
    ((v >> ((8 * i) as u64)) & 0xff) as u8
}

/// The 16-byte seed: the seconds in the first eight bytes, the counter in the
/// last eight, both little-endian.
pub open spec fn seed_spec(secs: u64, count: u64) -> Seq<u8> {
    Seq::new(16, |i: int| if i < 8 { byte_of(secs, i) } else { byte_of(count, i - 8) })
}

/// A lower-case letter in `a..=y`.
pub open spec fn is_name_letter(c: char) -> bool {
    'a' <= c && c <= 'y'
}

/// A decimal digit.
pub open spec fn is_name_digit(c: char) -> bool {
    '0' <= c && c <= '9'
}

/// What every generated name looks like: sixteen characters, a letter first,
/// then letters and digits. Such a name is a valid Rust identifier and, being
/// longer than any keyword, never a keyword.
pub open spec fn is_generated_name(s: Seq<char>) -> bool {
    &&& s.len() == NAME_LEN
    &&& is_name_letter(s[0])
    &&& forall|i: int| 1 <= i < s.len() ==> is_name_letter(#[trigger] s[i]) || is_name_digit(s[i])
}

/// Word `k` (counting from zero) that `RngCore::next_u32` returns from a
/// xoshiro128++ generator made by `SeedableRng::from_seed(seed)`. The
/// generator is deterministic: the words depend on the seed alone.
pub uninterp spec fn generator_word(seed: Seq<u8>, k: nat) -> u32;

/// A xoshiro128++ generator, with the seed it was made from and the number of
/// words drawn from it so far.
struct WordSource {
    rng: Xoshiro128PlusPlus,
    seed: Ghost<Seq<u8>>,
    drawn: Ghost<nat>,
}

/// Relies on `SeedableRng::from_seed` of rand_xoshiro's `Xoshiro128PlusPlus`
/// (an all-zero seed is mapped to a fixed non-zero state; it never panics).
#[verifier::external_body]
fn seeded_generator(seed: [u8; 16]) -> (g: WordSource)
    ensures
        g.seed@ == seed@,
        g.drawn@ == 0,
{
    WordSource { rng: Xoshiro128PlusPlus::from_seed(seed), seed: Ghost(seed@), drawn: Ghost(0) }
}

/// Relies on rand's `Rng::gen::<bool>`, which is `(rng.next_u32() as i32) < 0`:
/// it takes one word and tells whether its top bit is set.
#[verifier::external_body]
fn draw_bool(g: &mut WordSource) -> (b: bool)
    ensures
        final(g).seed == old(g).seed,
        final(g).drawn@ == old(g).drawn@ + 1,
        b == ((generator_word(old(g).seed@, old(g).drawn@) as i32) < 0),
{
    g.drawn = Ghost(g.drawn@ + 1);
    g.rng.gen::<bool>()
}

/// Relies on rand's `Rng::gen::<u8>`, which is `rng.next_u32() as u8`: it
/// takes one word and keeps its low byte.
#[verifier::external_body]
fn draw_byte(g: &mut WordSource) -> (b: u8)
    ensures
        final(g).seed == old(g).seed,
        final(g).drawn@ == old(g).drawn@ + 1,
        b == generator_word(old(g).seed@, old(g).drawn@) as u8,
{
    g.drawn = Ghost(g.drawn@ + 1);
    g.rng.gen::<u8>()
}

/// Relies on `String::push`: appends one character.
#[verifier::external_body]
fn push_char(s: &mut String, c: char)
    ensures
        final(s)@ == old(s)@.push(c),
{
    s.push(c)
}

/// The letter that a byte selects: `a` plus the byte modulo 25.
pub open spec fn letter_of(b: u8) -> char {
    (97 + b % 25) as char
}

/// The digit that a byte selects: `0` plus the byte modulo 10.
pub open spec fn digit_of(b: u8) -> char {
    (48 + b % 10) as char
}

/// The name spelled by the draws: character `i` is the letter of `bytes[i]`
/// when `i` is 0 or `letters[i]` holds, and its digit otherwise.
pub open spec fn name_chars(letters: Seq<bool>, bytes: Seq<u8>) -> Seq<char> {
    Seq::new(
        bytes.len(),
        |i: int|
            if i == 0 || letters[i] {
                letter_of(bytes[i])
            } else {
                digit_of(bytes[i])
            },
    )
}

/// Whether character `i` of the name from `seed` is a letter: the first
/// always is; each later one draws word `2i - 1` and is a letter when that
/// word's top bit is set.
pub open spec fn drawn_letter(seed: Seq<u8>, i: int) -> bool {
    i == 0 || (generator_word(seed, (2 * i - 1) as nat) as i32) < 0
}

/// The byte that selects character `i` of the name from `seed`: the low
/// byte of word `2i`.
pub open spec fn drawn_byte(seed: Seq<u8>, i: int) -> u8 {
    generator_word(seed, (2 * i) as nat) as u8
}

/// The name generated from `seed`.
pub open spec fn name_from_seed(seed: Seq<u8>) -> Seq<char> {
    name_chars(
        Seq::new(NAME_LEN as nat, |i: int| drawn_letter(seed, i)),
        Seq::new(NAME_LEN as nat, |i: int| drawn_byte(seed, i)),
    )
}

/// Spells the name that the draws select: for each position, a letter
/// (`a` to `y`) when it is the first or its letter flag is set, else a digit.
pub fn name_from_draws(letters: &Vec<bool>, bytes: &Vec<u8>) -> (name: String)
    requires
        letters@.len() == bytes@.len(),
    ensures
        name@ == name_chars(letters@, bytes@),
{
    let mut name = String::new();
    let mut i: usize = 0;
    while i < bytes.len()
        invariant
            i <= bytes@.len() == letters@.len(),
            name@ =~= name_chars(letters@, bytes@).take(i as int),
        decreases bytes@.len() - i,
    {
        let c = if i == 0 || letters[i] {
            (97u8 + bytes[i] % 25) as char
        } else {
            (48u8 + bytes[i] % 10) as char
        };
        push_char(&mut name, c);
        i = i + 1;
    }
    name
}

/// Builds the generator seed from the time in seconds and the call counter.
pub fn name_seed(secs: u64, count: u64) -> (seed: [u8; 16])
    ensures
        seed@ == seed_spec(secs, count),
{
    let mut seed: [u8; 16] = [0; 16];
    let mut i: usize = 0;
    while i < 8
        invariant
            i <= 8,
            forall|j: int| 0 <= j < i ==> seed@[j] == byte_of(secs, j),
            forall|j: int| 8 <= j < 8 + i ==> seed@[j] == byte_of(count, j - 8),
        decreases 8 - i,
    {
        seed[i] = ((secs >> (8 * i) as u64) & 0xff) as u8;
        seed[8 + i] = ((count >> (8 * i) as u64) & 0xff) as u8;
        i = i + 1;
    }
    assert(seed@ =~= seed_spec(secs, count));
    seed
}

/// Generates a fresh name for a wrapper function from the time in seconds and
/// the call counter: the name that the generator seeded with both spells.
/// Equal time and counter give equal names.
pub fn random_ident(secs: u64, count: u64) -> (name: String)
    ensures
        name@ == name_from_seed(seed_spec(secs, count)),
        is_generated_name(name@),
{
    let seed = name_seed(secs, count);
    let mut g = seeded_generator(seed);
    let ghost sd = seed@;
    let mut letters: Vec<bool> = Vec::new();
    let mut bytes: Vec<u8> = Vec::new();
    let mut i: usize = 0;
    while i < NAME_LEN
        invariant
            i <= NAME_LEN,
            g.seed@ == sd,
            g.drawn@ == if i == 0 { 0 } else { 2 * i - 1 },
            letters@.len() == i,
            bytes@.len() == i,
            forall|j: int| 0 <= j < i ==> #[trigger] letters@[j] == drawn_letter(sd, j),
            forall|j: int| 0 <= j < i ==> #[trigger] bytes@[j] == drawn_byte(sd, j),
        decreases NAME_LEN - i,
    {
        if i == 0 {
            letters.push(true);
        } else {
            let letter = draw_bool(&mut g);
            letters.push(letter);
        }
        let b = draw_byte(&mut g);
        bytes.push(b);
        i = i + 1;
    }
    let name = name_from_draws(&letters, &bytes);
    assert(letters@ =~= Seq::new(NAME_LEN as nat, |i: int| drawn_letter(sd, i)));
    assert(bytes@ =~= Seq::new(NAME_LEN as nat, |i: int| drawn_byte(sd, i)));
    assert forall|i: int| 1 <= i < name@.len() implies is_name_letter(#[trigger] name@[i])
        || is_name_digit(name@[i]) by {
        let b = bytes@[i];
        assert(b % 25 < 25 && b % 10 < 10);
    }
    assert(bytes@[0] % 25 < 25);
    name
}

} // verus!
