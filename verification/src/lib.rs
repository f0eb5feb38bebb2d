//! Simulation core of a turn-based starship exploration and combat game:
//! an 8x8 galaxy of quadrants, each an 8x8 grid of sectors holding stars,
//! at most one starbase and hostile units; a player vessel with energy,
//! shields, torpedoes and a per-subsystem damage ledger; and the state
//! transitions (hits, damage, repair, hostile attacks, procedural
//! generation) that the external turn driver invokes.
//!
//! Fractional quantities (unit energies, damage severities, repair delays,
//! random draws from the unit interval) are carried in thousandths, so that
//! every transition is exact integer arithmetic.

pub mod galaxy;
pub mod pos;
pub mod quadrant;
pub mod rng;
pub mod ship;
pub mod subsystems;

pub use galaxy::Galaxy;
pub use pos::Course;
pub use pos::Pos;
pub use quadrant::Klingon;
pub use quadrant::Quadrant;
pub use quadrant::SectorStatus;
pub use quadrant::StarBase;
pub use rng::GameRng;
pub use ship::Enterprise;
pub use subsystems::Subsystem;
