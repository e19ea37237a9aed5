//! A validated, handle-indexed, immutable in-memory model of game-balance
//! data: a registry of named content archetypes, experience-gated
//! advancement tiers, fold strategies that reduce unlocked tiers into typed
//! bonus summaries, and a corpus-wide referential-integrity check.

pub mod advancement;
pub mod archetype;
pub mod config;
pub mod hackstead;
pub mod laws;
pub mod plant;
pub mod scan;

pub use config::Config;
pub use config::Violation;
pub use config::ViolationKind;

pub use advancement::Advancement;
pub use advancement::AdvancementSet;
pub use advancement::AdvancementSum;
pub use hackstead::HacksteadAdvancementKind;
pub use hackstead::HacksteadAdvancementSum;
pub use plant::FloatBits;
pub use plant::PlantAdvancementKind;
pub use plant::PlantAdvancementSum;
pub use plant::PlantArchetype;
pub use plant::Recipe;

pub use archetype::Archetype;
pub use archetype::ArchetypeHandle;
pub use archetype::ArchetypeKind;
pub use archetype::ConfigError;
pub use archetype::GotchiArchetype;
pub use archetype::KeepsakeArchetype;
pub use archetype::SeedArchetype;
