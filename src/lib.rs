//! Arithmetic in finite-rank commutative rings, starting with the integers
//! modulo a fixed modulus, as groundwork for lattice-based constructions.
pub mod matrices;
pub mod modular;
pub mod ring;

pub use matrices::{Matrix, Vector};
pub use modular::{Modular, ModulusError};
pub use ring::{FinRankCRing, Ring};
