//! Agent memory over RDF: an N-Triples closure toolkit, quad-store helpers
//! and validation reports, with contracts checked by Verus.
pub mod graph;
pub mod pipeline;
pub mod reasoner;
pub mod validator;
