//! A self-monitoring task-execution kernel.
//!
//! A run takes a goal, executes it under a time and risk policy, and yields a
//! manifest with a nine-scalar self-assessment of the result. The assessment
//! drives the admission gates, the trust score and the slow adaptation loop
//! that proposes changes to the kernel's own control parameters.
//!
//! All scalars are fixed-point numbers counted in millionths (see [`level`]).

pub mod ambient;
pub mod api;
pub mod dotenv;
pub mod engine;
pub mod integrations;
pub mod json;
pub mod level;
pub mod meta;
pub mod nstar;
pub mod nstar_run;
pub mod order;
pub mod research;
pub mod tail;
pub mod text;
