//! The fixed-capacity byte buffers of the serial programs. They are
//! `heapless::Vec`s; what the library knows of them comes from the trusted
//! items below, one set per capacity in use.

use vstd::prelude::*;

verus! {

/// The fixed-capacity vector of the `heapless` crate.
#[verifier::external_type_specification]
#[verifier::external_body]
#[verifier::reject_recursive_types(T)]
pub struct ExHeaplessVec<T, const N: usize>(heapless::Vec<T, N>);

/// The bytes held by a buffer of capacity 32, first pushed first.
pub uninterp spec fn line_bytes(v: heapless::Vec<u8, 32>) -> Seq<u8>;

/// The bytes held by a buffer of capacity 3, first pushed first.
pub uninterp spec fn command_bytes(v: heapless::Vec<u8, 3>) -> Seq<u8>;

/// `heapless::Vec::<u8, 32>::new`: a vector that holds nothing.
#[verifier::external_body]
pub(crate) fn line_new() -> (v: heapless::Vec<u8, 32>)
    ensures
        line_bytes(v) == Seq::<u8>::empty(),
{
    heapless::Vec::new()
}

/// `heapless::Vec::<u8, 32>::push`: while fewer than 32 bytes are held, the
/// byte is appended and `Ok` returned; on a full vector nothing changes and
/// the byte comes back in `Err`.
#[verifier::external_body]
pub(crate) fn line_push(v: &mut heapless::Vec<u8, 32>, byte: u8) -> (r: Result<(), u8>)
    ensures
        line_bytes(*old(v)).len() < 32 ==> r is Ok,
        line_bytes(*old(v)).len() < 32 ==> line_bytes(*final(v)) == line_bytes(*old(v)).push(byte),
        line_bytes(*old(v)).len() >= 32 ==> (r matches Err(b) && b == byte),
        line_bytes(*old(v)).len() >= 32 ==> line_bytes(*final(v)) == line_bytes(*old(v)),
{
    v.push(byte)
}

/// `heapless::Vec::<u8, 32>::clear`: afterwards nothing is held.
#[verifier::external_body]
pub(crate) fn line_clear(v: &mut heapless::Vec<u8, 32>)
    ensures
        line_bytes(*final(v)) == Seq::<u8>::empty(),
{
    v.clear()
}

/// `heapless::Vec::<u8, 32>::as_slice`: the held bytes in order; a heapless
/// vector never holds more than its capacity.
#[verifier::external_body]
pub(crate) fn line_as_slice(v: &heapless::Vec<u8, 32>) -> (s: &[u8])
    ensures
        s@ == line_bytes(*v),
        s@.len() <= 32,
{
    v.as_slice()
}

/// `heapless::Vec::<u8, 3>::new`: a vector that holds nothing.
#[verifier::external_body]
pub(crate) fn command_new() -> (v: heapless::Vec<u8, 3>)
    ensures
        command_bytes(v) == Seq::<u8>::empty(),
{
    heapless::Vec::new()
}

/// `heapless::Vec::<u8, 3>::push`: while fewer than 3 bytes are held, the
/// byte is appended and `Ok` returned; on a full vector nothing changes and
/// the byte comes back in `Err`.
#[verifier::external_body]
pub(crate) fn command_push(v: &mut heapless::Vec<u8, 3>, byte: u8) -> (r: Result<(), u8>)
    ensures
        command_bytes(*old(v)).len() < 3 ==> r is Ok,
        command_bytes(*old(v)).len() < 3 ==> command_bytes(*final(v)) == command_bytes(
            *old(v),
        ).push(byte),
        command_bytes(*old(v)).len() >= 3 ==> (r matches Err(b) && b == byte),
        command_bytes(*old(v)).len() >= 3 ==> command_bytes(*final(v)) == command_bytes(*old(v)),
{
    v.push(byte)
}

/// `heapless::Vec::<u8, 3>::clear`: afterwards nothing is held.
#[verifier::external_body]
pub(crate) fn command_clear(v: &mut heapless::Vec<u8, 3>)
    ensures
        command_bytes(*final(v)) == Seq::<u8>::empty(),
{
    v.clear()
}

/// `heapless::Vec::<u8, 3>::as_slice`: the held bytes in order; a heapless
/// vector never holds more than its capacity.
#[verifier::external_body]
pub(crate) fn command_as_slice(v: &heapless::Vec<u8, 3>) -> (s: &[u8])
    ensures
        s@ == command_bytes(*v),
        s@.len() <= 3,
{
    v.as_slice()
}

/// The bytes of `s` in the opposite order.
pub fn reversed(s: &[u8]) -> (r: Vec<u8>)
    ensures
        r@ == s@.reverse(),
{
    let mut r: Vec<u8> = Vec::new();
    let mut i: usize = s.len();
    while i > 0
        invariant
            i <= s@.len(),
            r@.len() == s@.len() - i,
            forall|k: int| 0 <= k < r@.len() ==> r@[k] == s@[s@.len() - 1 - k],
        decreases i,
    {
        i = i - 1;
        r.push(s[i]);
    }
    r
}

/// A copy of the bytes of `s`.
pub fn copied(s: &[u8]) -> (r: Vec<u8>)
    ensures
        r@ == s@,
{
    let mut r: Vec<u8> = Vec::new();
    let mut i: usize = 0;
    while i < s.len()
        invariant
            i <= s@.len(),
            r@ == s@.subrange(0, i as int),
        decreases s@.len() - i,
    {
        r.push(s[i]);
        i = i + 1;
        assert(r@ == s@.subrange(0, i as int));
    }
    r
}

} // verus!
