//! The framework's object taxonomy: what a project is made of and what the
//! CLI can add to one. (The CLI derives its argument parser from a copy of
//! [`AddableObjects`] outside the library.)

use vstd::prelude::*;

verus! {

/// The kinds of insight a project can expose.
#[derive(Debug, Clone, Copy)]
pub enum Insights {
    Metric,
    Dashboard,
    Model,
}

/// The top-level objects of a project.
#[derive(Debug, Clone, Copy)]
pub enum TopLevelObjects {
    Ingestion,
    Flow,
    Dataframe,
    Insights(Insights),
}

/// What the `add` command can create.
#[derive(Debug, Clone, Copy)]
pub enum AddableObjects {
    IngestPoint,
    Flow,
    Dataframe,
    Metric,
    Dashboard,
    Model,
}

} // verus!
