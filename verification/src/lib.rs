//! Ant-based clustering: ants wander over a bounded grid, pick up isolated
//! grains and drop them near similar ones.
//!
//! The crate holds the engine of the simulation: the grain store, the
//! iteration budget, the per-ant step and the progress monitor. Positions are
//! points of an integer grid. Feature values are carried as 64-bit words and
//! never interpreted here; the caller decides, from the neighbourhood that the
//! engine reports, whether a pick-up or a drop is accepted.

pub mod constantes;
pub mod outros;
pub mod sorteio;
pub mod grao;
pub mod contador;
pub mod mapa;
pub mod formiga;
pub mod monitor;
pub mod cenario;
pub mod similaridade;
pub mod cor;
pub mod ingestao;
