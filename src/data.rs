use vstd::prelude::*;
use rand::RngCore;

verus! {

/// Length of the random block that payloads repeat (one mebibyte).
pub const BUFFER_SIZE: usize = 1024 * 1024;

/// The first `size` bytes of `base` repeated end to end.
pub open spec fn cycled(base: Seq<u8>, size: nat) -> Seq<u8> {
    Seq::new(size, |i: int| base[i % (base.len() as int)])
}

/// Relies on rand::thread_rng and RngCore::fill_bytes: a block of
/// `BUFFER_SIZE` bytes, filled by the thread's random generator. Nothing is
/// promised of the bytes themselves.
#[verifier::external_body]
pub fn generate_random_buffer() -> (r: Vec<u8>)
    ensures
        r@.len() == BUFFER_SIZE,
{
    let mut buf = vec![0u8; BUFFER_SIZE];
    rand::thread_rng().fill_bytes(&mut buf);
    buf
}

/// `size` bytes made by repeating `base` from its start.
pub fn cycle_buffer(base: &Vec<u8>, size: usize) -> (r: Vec<u8>)
    requires
        base@.len() > 0,
    ensures
        r@ == cycled(base@, size as nat),
{
    let n = base.len();
    let mut payload: Vec<u8> = Vec::with_capacity(size);
    let mut i: usize = 0;
    while i < size
        invariant
            n == base@.len(),
            n > 0,
            i <= size,
            payload@ == cycled(base@, i as nat),
        decreases size - i,
    {
        payload.push(base[i % n]);
        i = i + 1;
        assert(payload@ =~= cycled(base@, i as nat));
    }
    payload
}

/// An upload body of exactly `size` bytes: one random block repeated, so
/// that large payloads cost no more random generation than small ones.
pub fn random_payload(size: usize) -> (r: Vec<u8>)
    ensures
        r@.len() == size,
        exists|base: Seq<u8>| base.len() == BUFFER_SIZE && r@ == cycled(base, size as nat),
{
    let base = generate_random_buffer();
    let r = cycle_buffer(&base, size);
    assert(base@.len() == BUFFER_SIZE && r@ == cycled(base@, size as nat));
    r
}

} // verus!
