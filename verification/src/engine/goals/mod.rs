//! Goal behaviors that decide what a collaborator is asked and what is made
//! of its answer.

pub mod meta_omni;
