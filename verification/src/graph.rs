//! Data carried by one snapshot of the indexed event-log source.
//!
//! A snapshot holds the batch of pending transfers (arrivals), the
//! top-rank achievement (hat) and artifact records above the currently
//! tracked floors, and indexing-health metadata. The surrounding binary
//! decodes the wire format into these plain types; the evaluator reads
//! them and nothing else.

use vstd::prelude::*;

verus! {

/// One artifact record: an artifact discovered above the tracked tier.
#[allow(non_snake_case)]
#[derive(Debug, Clone)]
pub struct Artifact {
    pub id: String,
    pub planetLevel: u32,
    pub rarity: String,
    pub discoverer: Player,
    pub planetDiscoveredOn: Planet,
}

/// One pending transfer: a fleet underway between two planets.
#[allow(non_snake_case)]
#[derive(Debug, Clone)]
pub struct Arrival {
    pub id: String,
    pub arrivalId: u32,
    pub arrivalTime: u32,
    pub departureTime: u32,
    pub receivedAt: u32,
    pub milliEnergyArriving: u32,
    pub processedAt: Option<u32>,
    pub milliSilverMoved: u32,
    pub fromPlanet: Planet,
    pub player: Player,
}

/// The actor behind a transfer or a discovery.
#[allow(non_snake_case)]
#[derive(Debug, Clone)]
pub struct Player {
    pub id: String,
    pub initTimestamp: u32,
}

/// One achievement record: a hat of some rank on some planet.
#[allow(non_snake_case)]
#[derive(Debug, Clone)]
pub struct Hat {
    pub id: String,
    pub planet: Planet,
    pub player: Player,
    pub hatLevel: u32,
    pub timestamp: u32,
}

/// A planet, reduced to what the evaluator reads of it.
#[allow(non_snake_case)]
#[derive(Debug, Clone)]
pub struct Planet {
    pub id: String,
    pub speed: u32,
}

/// Indexing-health metadata reported by the event-log source itself.
#[allow(non_snake_case)]
#[derive(Debug, Clone)]
pub struct GraphMeta {
    pub hasIndexingErrors: bool,
    pub deployment: String,
    pub block: Block,
}

/// Progress metadata of the event-log deployment.
#[allow(non_snake_case)]
#[derive(Debug, Clone)]
pub struct DarkForestMeta {
    pub lastProcessed: u32,
}

/// The block the event-log source last indexed.
#[allow(non_snake_case)]
#[derive(Debug, Clone)]
pub struct Block {
    pub number: u32,
    pub hash: String,
}

/// The envelope around one snapshot, as the wire format frames it.
#[allow(non_snake_case)]
#[derive(Debug, Clone)]
pub struct GraphData {
    pub data: SophonQueryData,
}

/// One snapshot of the event-log source.
#[allow(non_snake_case)]
#[derive(Debug, Clone)]
pub struct SophonQueryData {
    pub arrivals: Vec<Arrival>,
    pub graph_meta: GraphMeta,
    pub df_meta: DarkForestMeta,
    pub hats: Vec<Hat>,
    pub artifacts: Vec<Artifact>,
}

/// Why a fetch from the event-log source failed.
#[derive(Debug, Clone, Copy, PartialEq, Eq)]
pub enum GraphError {
    Internal,
    JsonError,
    HttpError,
}

} // verus!
