//! Peer discovery and seeding for a mesh-network node: candidate pools,
//! rate-limited connect selection, DNS seed rotation and self-peering
//! credentials.

pub mod peer;
pub mod pool;
pub mod wire;
pub mod seeder;
pub mod rtypes;
pub mod control;
