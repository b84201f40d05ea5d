//! Identifiers of particles and constraints, and the counter they come from.

use serial_int::SerialGenerator;
use vstd::prelude::*;

verus! {

/// The identifier of a particle. It stays with the particle for as long as
/// the world exists.
#[derive(Clone, Copy, Debug, PartialEq, Eq, Hash, Structural)]
pub struct ParticleId(pub usize);

/// The identifier of a constraint. Once the constraint is removed the
/// identifier names nothing, and no later constraint receives it.
#[derive(Clone, Copy, Debug, PartialEq, Eq, Hash, Structural)]
pub struct ConstraintId(pub usize);

/// Draws one value from a `serial_int::SerialGenerator` that stands at
/// `value`. `SerialGenerator::generate` hands out the value it stands at and
/// moves one up, staying at the greatest value once it is reached; the pair
/// returned is the value handed out and the value the generator stands at
/// afterwards, read by a second `generate`.
#[verifier::external_body]
pub(crate) fn draw_serial(value: usize) -> (r: (usize, usize))
    ensures
        r.0 == value,
        r.1 == if value == usize::MAX { value } else { (value + 1) as usize },
{
    let mut generator = SerialGenerator::with_init_value(value);
    let drawn = generator.generate();
    (drawn, generator.generate())
}

} // verus!
