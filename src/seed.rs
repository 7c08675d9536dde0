//! The seed manager: construction, placement on the heap and release of the
//! seed objects that every noise evaluation reads.

use vstd::prelude::*;

verus! {

/// The permutation table of the `noise` crate, carried through opaquely.
#[verifier::external_type_specification]
#[verifier::external_body]
pub struct ExNoiseSeed(noise::Seed);

/// The permutation table that `noise::Seed::new` builds from a seed value.
pub uninterp spec fn table_for(value: u32) -> noise::Seed;

/// Relies on `noise::Seed::new`: it seeds a fixed xorshift generator with
/// `[1, value, value, value]` and shuffles the table with it, so the table
/// depends on `value` alone.
#[verifier::external_body]
fn permutation_table(value: u32) -> (r: noise::Seed)
    ensures
        r == table_for(value),
{
    noise::Seed::new(value)
}

/// A seed object: the value it was made from and the permutation table that
/// the noise functions read. Immutable once built.
pub struct NoiseSeed {
    value: u32,
    table: noise::Seed,
}

impl NoiseSeed {
    /// The value this seed was made from.
    pub closed spec fn view(&self) -> u32 {
        self.value
    }

    /// The permutation table this seed carries.
    pub closed spec fn spec_table(&self) -> noise::Seed {
        self.table
    }

    /// A seed is well formed when its table is the one its value determines.
    pub closed spec fn wf(&self) -> bool {
        self.table == table_for(self.value)
    }

    /// Builds the seed object for `value`.
    pub fn new(value: u32) -> (r: NoiseSeed)
        ensures
            r@ == value,
            r.spec_table() == table_for(value),
            r.wf(),
    {
        NoiseSeed { value, table: permutation_table(value) }
    }

    /// The value this seed was made from.
    pub fn value(&self) -> (r: u32)
        ensures
            r == self@,
    {
        self.value
    }

    /// The permutation table to hand to the noise functions.
    pub fn table(&self) -> (r: &noise::Seed)
        ensures
            *r == self.spec_table(),
            self.wf() ==> *r == table_for(self@),
    {
        &self.table
    }
}

/// Two well-formed seeds made from the same value carry the same table, so
/// every noise function sees them as the same input: a sample depends on the
/// seed value and the coordinate alone.
pub proof fn lemma_table_determined_by_value(a: NoiseSeed, b: NoiseSeed)
    requires
        a.wf(),
        b.wf(),
        a@ == b@,
    ensures
        a.spec_table() == b.spec_table(),
{
}

/// Moves `x` onto the heap and returns the owning box.
pub fn heap_mut_ptr<T>(x: T) -> (r: Box<T>)
    ensures
        *r == x,
{
    Box::new(x)
}

/// Creates a seed object for `seed` on the heap and hands its ownership to
/// the caller, who must release it with [`noise_seed_delete`] exactly once.
pub fn noise_seed_new(seed: u32) -> (r: Box<NoiseSeed>)
    ensures
        r@ == seed,
        r.spec_table() == table_for(seed),
        r.wf(),
{
    heap_mut_ptr(NoiseSeed::new(seed))
}

/// Releases a seed object. Ownership comes back with the box, so the seed can
/// be neither used nor released again afterwards.
pub fn noise_seed_delete(seed: Box<NoiseSeed>) {
    let _released: Box<NoiseSeed> = seed;
}

} // verus!
