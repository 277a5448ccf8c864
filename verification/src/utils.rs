//! Helpers: time formatting and pairing-key generation.

use rand::Rng;
use vstd::prelude::*;

verus! {

/// The characters a pairing key is made of: upper-case letters, lower-case
/// letters and digits.
pub const CHARSET: [char; 62] = [
    'A', 'B', 'C', 'D', 'E', 'F', 'G', 'H', 'I', 'J', 'K', 'L', 'M',
    'N', 'O', 'P', 'Q', 'R', 'S', 'T', 'U', 'V', 'W', 'X', 'Y', 'Z',
    'a', 'b', 'c', 'd', 'e', 'f', 'g', 'h', 'i', 'j', 'k', 'l', 'm',
    'n', 'o', 'p', 'q', 'r', 's', 't', 'u', 'v', 'w', 'x', 'y', 'z',
    '0', '1', '2', '3', '4', '5', '6', '7', '8', '9',
];

/// The number of characters in a pairing key.
pub const PASSWORD_LEN: usize = 30;

/// `c` is an ASCII letter or digit.
pub open spec fn is_key_char(c: char) -> bool {
    ('A' <= c && c <= 'Z') || ('a' <= c && c <= 'z') || ('0' <= c && c <= '9')
}

/// `key` has the shape of a generated pairing key: thirty ASCII letters or
/// digits.
pub open spec fn is_valid_key(key: Seq<char>) -> bool {
    &&& key.len() == PASSWORD_LEN
    &&& forall|i: int| 0 <= i < key.len() ==> is_key_char(#[trigger] key[i])
}

/// The key spelled by a sequence of positions in `CHARSET`.
pub open spec fn key_of_indices(indices: Seq<usize>) -> Seq<char> {
    indices.map_values(|i: usize| CHARSET@[i as int])
}

/// Every character of `CHARSET` is an ASCII letter or digit.
pub proof fn lemma_charset_is_alphanumeric()
    ensures
        forall|i: int| 0 <= i < 62 ==> is_key_char(#[trigger] CHARSET@[i]),
{
}

#[verifier::external_type_specification]
#[verifier::external_body]
pub struct ExThreadRng(rand::rngs::ThreadRng);

/// Calls `rand::thread_rng`, which hands out the thread's random number
/// generator. Nothing about the generator is promised.
#[verifier::external_body]
fn thread_rng() -> (rng: rand::rngs::ThreadRng) {
    rand::thread_rng()
}

/// Calls `Rng::gen_range(0..bound)` on `rng`. rand documents that the value
/// lies in the half-open range and that an empty range panics, so `bound`
/// must be positive. Which value comes out is chance: only the range is
/// stated.
#[verifier::external_body]
fn random_index(rng: &mut rand::rngs::ThreadRng, bound: usize) -> (idx: usize)
    requires
        bound > 0,
    ensures
        idx < bound,
{
    rng.gen_range(0..bound)
}

/// Calls `String::push`, which std documents as appending `c` at the end
/// of `s`.
#[verifier::external_body]
fn push_char(s: &mut String, c: char)
    ensures
        final(s)@ == old(s)@.push(c),
{
    s.push(c)
}

/// Spells out the key whose characters are `CHARSET` at the given
/// positions, in order.
pub fn key_from_indices(indices: &Vec<usize>) -> (key: String)
    requires
        forall|i: int| 0 <= i < indices.len() ==> indices[i] < 62,
    ensures
        key@ == key_of_indices(indices@),
{
    let mut key = String::new();
    let mut k: usize = 0;
    while k < indices.len()
        invariant
            k <= indices.len(),
            forall|i: int| 0 <= i < indices.len() ==> indices[i] < 62,
            key@ == key_of_indices(indices@.take(k as int)),
        decreases indices.len() - k,
    {
        let idx = indices[k];
        push_char(&mut key, CHARSET[idx]);
        assert(indices@.take(k + 1) == indices@.take(k as int).push(idx));
        k += 1;
    }
    assert(indices@.take(indices.len() as int) == indices@);
    key
}

/// Generates a fresh pairing key: `PASSWORD_LEN` characters drawn at random
/// from `CHARSET`.
pub fn generate() -> (password: String)
    ensures
        is_valid_key(password@),
{
    let mut rng = thread_rng();
    let mut indices: Vec<usize> = Vec::new();
    while indices.len() < PASSWORD_LEN
        invariant
            indices.len() <= PASSWORD_LEN,
            forall|i: int| 0 <= i < indices.len() ==> indices[i] < 62,
        decreases PASSWORD_LEN - indices.len(),
    {
        let idx = random_index(&mut rng, 62);
        indices.push(idx);
    }
    let password = key_from_indices(&indices);
    proof {
        lemma_charset_is_alphanumeric();
        assert forall|i: int| 0 <= i < password@.len() implies is_key_char(#[trigger] password@[i]) by {
            assert(indices@[i] < 62);
        }
    }
    password
}

/// Whole seconds in `time` milliseconds, rounded toward zero as Rust's
/// integer division does.
pub open spec fn whole_seconds(time: i64) -> int {
    if time >= 0 {
        time / 1000
    } else {
        -((-time) / 1000)
    }
}

/// The `[minutes, seconds]` pair that `convert_time` gives for `time`
/// milliseconds: less than a minute is counted as seconds only; from one
/// minute on the seconds are split into whole minutes and the rest.
pub open spec fn minutes_and_seconds(time: i64) -> Seq<i64> {
    let secs = whole_seconds(time);
    if secs < 60 {
        seq![0i64, secs as i64]
    } else {
        seq![(secs / 60) as i64, (secs % 60) as i64]
    }
}

/// Converts a duration in milliseconds into a two-element vector
/// `[minutes, seconds]`.
pub fn convert_time(time: i64) -> (time_list: Vec<i64>)
    ensures
        time_list@ == minutes_and_seconds(time),
        time >= 0 ==> time_list@[0] * 60 + time_list@[1] == time / 1000 && 0 <= time_list@[1]
            < 60,
{
    let mut minutes: i64 = 0;
    let mut seconds: i64 = 0;
    let mut time_list: Vec<i64> = Vec::new();

    let time: i64 = time / 1000;

    if time < 60 {
        seconds = time;
    } else {
        minutes = time / 60;
        seconds = time % 60;
    }

    time_list.push(minutes);
    time_list.push(seconds);
    time_list
}

} // verus!
