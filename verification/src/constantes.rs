//! The parameters of a standard run.

use vstd::prelude::*;

verus! {

/// Half-side of the neighbourhood, in grid steps in each direction.
pub const TAMANHO_VIZINHANCA: i32 = 1;

/// Number of ants.
pub const NUM_FORMIGAS: i32 = 40;

/// Number of steps that all the ants share.
pub const NUM_INTERACOES: i64 = 50_000_000;

} // verus!
