//! Random identifiers and random delays.

use crate::text::hex_lower;
use vstd::prelude::*;

verus! {

/// Draws bytes with `fill_bytes` of `rand::thread_rng`. What they are is left to chance.
#[verifier::external_body]
pub(crate) fn random_bytes<const N: usize>() -> (r: [u8; N]) {
    let mut bytes = [0u8; N];
    rand::RngCore::fill_bytes(&mut rand::thread_rng(), &mut bytes);
    bytes
}

/// Draws a number with `gen_range` of `rand::thread_rng`, which returns one from the range it is
/// given and panics only on an empty one. Which one is left to chance.
#[verifier::external_body]
pub(crate) fn random_below(bound: usize) -> (r: usize)
    requires
        0 < bound,
    ensures
        r < bound,
{
    rand::Rng::gen_range(&mut rand::thread_rng(), 0..bound)
}

/// Writes `bytes` with `hex::encode`: two lowercase digits for each byte, the high one first.
#[verifier::external_body]
pub(crate) fn hex_encode(bytes: &[u8]) -> (r: String)
    ensures
        r@ == hex_lower(bytes@),
{
    hex::encode(bytes)
}

/// Whether `n` is what came of drawing a number below `bound`.
///
/// It holds of nothing but the outcome of a draw.
pub closed spec fn is_draw_below(bound: usize, n: usize) -> bool {
    call_ensures(random_below, (bound,), n)
}

/// Whether `bytes` are what came of drawing twelve bytes.
///
/// It holds of nothing but the outcome of a draw.
pub closed spec fn are_drawn(bytes: Seq<u8>) -> bool {
    exists|drawn: [u8; 12]| #[trigger]
        call_ensures(random_bytes::<12>, (), drawn) && drawn@ == bytes
}

/// Draws a number below `bound`.
pub(crate) fn draw_below(bound: usize) -> (r: usize)
    requires
        0 < bound,
    ensures
        is_draw_below(bound, r),
        r < bound,
{
    let draw = random_below;
    draw(bound)
}

/// Draws twelve bytes.
pub(crate) fn draw_bytes() -> (r: [u8; 12])
    ensures
        are_drawn(r@),
{
    let draw = random_bytes::<12>;
    draw()
}

/// Whether `text` is twelve drawn bytes in lowercase hexadecimal.
pub open spec fn is_drawn_nonce(text: Seq<char>) -> bool {
    exists|bytes: Seq<u8>| #[trigger]
        are_drawn(bytes) && bytes.len() == 12 && text == hex_lower(bytes)
}

/// Whether `text` is twelve bytes in lowercase hexadecimal.
pub open spec fn is_nonce(text: Seq<char>) -> bool {
    exists|bytes: Seq<u8>| bytes.len() == 12 && text == #[trigger] hex_lower(bytes)
}

/// Writes twelve bytes as a nonce.
pub fn nonce_text(bytes: &[u8; 12]) -> (r: String)
    ensures
        r@ == hex_lower(bytes@),
        is_nonce(r@),
{
    hex_encode(bytes.as_slice())
}

/// Draws a new job identifier.
pub fn new_jid() -> (r: String)
    ensures
        is_nonce(r@),
        is_drawn_nonce(r@),
{
    let bytes: [u8; 12] = draw_bytes();
    nonce_text(&bytes)
}

/// Drawn numbers and bytes are outcomes of the generator.
pub(crate) proof fn law_draws_come_from_the_generator(bound: usize, n: usize, bytes: Seq<u8>)
    requires
        is_draw_below(bound, n),
        are_drawn(bytes),
    ensures
        call_ensures(random_below, (bound,), n),
        exists|drawn: [u8; 12]| #[trigger]
            call_ensures(random_bytes::<12>, (), drawn) && drawn@ == bytes,
{
}

/// A nonce spells each of its twelve bytes by two digits, the high one first.
pub proof fn law_nonce_spells_its_bytes(bytes: [u8; 12], nonce: String, i: int)
    requires
        call_ensures(nonce_text, (&bytes,), nonce),
        0 <= i < 12,
    ensures
        nonce@.len() == 24,
        ({
            let high = bytes@[i] as int / 16;
            let low = bytes@[i] as int % 16;
            &&& nonce@[2 * i] as int == if high < 10 {
                '0' as int + high
            } else {
                'a' as int + high - 10
            }
            &&& nonce@[2 * i + 1] as int == if low < 10 {
                '0' as int + low
            } else {
                'a' as int + low - 10
            }
        }),
{
    assert((2 * i) % 2 == 0 && (2 * i) / 2 == i);
    assert((2 * i + 1) % 2 == 1 && (2 * i + 1) / 2 == i);
}

/// A job identifier spells twelve drawn bytes.
pub proof fn law_job_identifiers_are_drawn(jid: String) -> (bytes: Seq<u8>)
    requires
        call_ensures(new_jid, (), jid),
    ensures
        are_drawn(bytes),
        bytes.len() == 12,
        jid@ == hex_lower(bytes),
        jid@.len() == 24,
{
    choose|bytes: Seq<u8>| #[trigger]
        are_drawn(bytes) && bytes.len() == 12 && jid@ == hex_lower(bytes)
}

} // verus!
