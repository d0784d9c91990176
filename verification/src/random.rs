//! The source of randomness for generated data.

use vstd::prelude::*;

verus! {

/// The random number generator of the `quickcheck` crate.
#[verifier::external_type_specification]
#[verifier::external_body]
pub struct ExGen(quickcheck::Gen);

/// Calls `quickcheck::Gen::new`: a generator with a random seed.
#[verifier::external_body]
pub(crate) fn new_generator(size: usize) -> quickcheck::Gen {
    quickcheck::Gen::new(size)
}

/// The size that a generator was made with: the bound on the length of the
/// lists and texts that are drawn from it.
pub uninterp spec fn size_made_with(g: quickcheck::Gen) -> usize;

/// Calls `quickcheck::Gen::size`: the size the generator was made with.
#[verifier::external_body]
pub(crate) fn generator_size(g: &quickcheck::Gen) -> (r: usize)
    ensures
        r == size_made_with(*g),
{
    g.size()
}

/// Draws a byte with `quickcheck`'s generator of `u8`. Every byte may come
/// back.
#[verifier::external_body]
pub(crate) fn draw_u8(g: &mut quickcheck::Gen) -> u8 {
    <u8 as quickcheck::Arbitrary>::arbitrary(g)
}

/// Draws a number with `quickcheck`'s generator of `u16`. Every number may
/// come back.
#[verifier::external_body]
pub(crate) fn draw_u16(g: &mut quickcheck::Gen) -> u16 {
    <u16 as quickcheck::Arbitrary>::arbitrary(g)
}

/// Draws a number with `quickcheck`'s generator of `usize`. Every number may
/// come back.
#[verifier::external_body]
pub(crate) fn draw_usize(g: &mut quickcheck::Gen) -> usize {
    <usize as quickcheck::Arbitrary>::arbitrary(g)
}

/// Draws a truth value with `quickcheck`'s generator of `bool`.
#[verifier::external_body]
pub(crate) fn draw_bool(g: &mut quickcheck::Gen) -> bool {
    <bool as quickcheck::Arbitrary>::arbitrary(g)
}

/// Calls `quickcheck::Gen::choose` on a slice that is not empty and hands out
/// a copy of the element it chose. That function returns an element of the
/// slice whenever the slice has one; which one is left open.
#[verifier::external_body]
pub(crate) fn pick<T: Copy>(g: &mut quickcheck::Gen, options: &[T]) -> (r: T)
    requires
        options@.len() > 0,
    ensures
        options@.contains(r),
{
    *g.choose(options).unwrap()
}

/// Draws a number below `bound`.
pub(crate) fn draw_below(g: &mut quickcheck::Gen, bound: usize) -> (r: usize)
    requires
        bound > 0,
    ensures
        r < bound,
{
    draw_usize(g) % bound
}

/// Draws bytes with `quickcheck`'s generator of `Vec<u8>`: it draws a length
/// below the size of the generator, which must not be zero, and then as many
/// bytes. Every byte may come back; the length is below the size.
#[verifier::external_body]
fn outside_bytes(g: &mut quickcheck::Gen) -> (r: Vec<u8>)
    requires
        size_made_with(*old(g)) > 0,
    ensures
        r@.len() < size_made_with(*old(g)),
{
    <Vec<u8> as quickcheck::Arbitrary>::arbitrary(g)
}

/// Draws a text with `quickcheck`'s generator of `String`: it draws a length
/// below the size of the generator, which must not be zero, and then as many
/// characters. Every character may come back; the count of the characters
/// is below the size.
#[verifier::external_body]
fn outside_text(g: &mut quickcheck::Gen) -> (r: String)
    requires
        size_made_with(*old(g)) > 0,
    ensures
        r@.len() < size_made_with(*old(g)),
{
    <String as quickcheck::Arbitrary>::arbitrary(g)
}

/// The length is one that a generator of the given size draws: below the
/// size, or zero where the size is zero.
pub open spec fn is_below_size(len: nat, size: usize) -> bool {
    if size == 0 {
        len == 0
    } else {
        len < size
    }
}

/// Draws fewer bytes than the size of the generator, or none from a
/// generator of size zero.
pub(crate) fn draw_bytes(g: &mut quickcheck::Gen) -> (r: Vec<u8>)
    ensures
        is_below_size(r@.len(), size_made_with(*old(g))),
{
    if generator_size(g) == 0 {
        Vec::new()
    } else {
        outside_bytes(g)
    }
}

/// Draws a text of fewer characters than the size of the generator, or the
/// empty text from a generator of size zero.
pub(crate) fn draw_text(g: &mut quickcheck::Gen) -> (r: String)
    ensures
        is_below_size(r@.len(), size_made_with(*old(g))),
{
    if generator_size(g) == 0 {
        String::new()
    } else {
        outside_text(g)
    }
}

/// The value, unless it is to be absent.
pub(crate) fn unless_absent<T>(absent: bool, value: T) -> (r: Option<T>)
    ensures
        r == if absent {
            None
        } else {
            Some(value)
        },
{
    if absent {
        None
    } else {
        Some(value)
    }
}

/// Draws whether a value is present, and hands out the value if it is.
pub(crate) fn draw_optional<T>(value: T, g: &mut quickcheck::Gen) -> (r: Option<T>)
    ensures
        r matches Some(v) ==> v == value,
{
    unless_absent(draw_bool(g), value)
}

} // verus!
