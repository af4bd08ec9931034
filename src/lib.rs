//! Integer and structural core of a Lennard-Jones molecular-dynamics engine:
//! the face-centred-cubic start lattice, run configuration and schedule, the
//! integrators, pairwise matrices and the preallocated trajectory history.

mod driver;
mod error;
mod history;
mod integrator;
mod lattice;
mod pairs;

pub use driver::{
    history_fits, lemma_run_schedule, plan_run, run_action, run_length, Run, RunAction, RunPlan,
};
pub use error::SimError;
pub use history::History;
pub use integrator::{Verlet, VerletCUDA};
pub use lattice::{
    fcc_count, fcc_layers, fcc_site, fcc_sites, is_fcc_count, lemma_fcc_site_complete,
    lemma_fcc_site_in_lattice,
};
pub use pairs::{is_square, is_symmetric_with_diagonal, pair_matrix};
