//! A release-ordering engine: guards carry a label and fire exactly one
//! release event when their lifetime ends, and within one scope release
//! order is the exact reverse of creation order.
pub mod guard;
pub mod laws;
pub mod container;
pub mod scenarios;
pub mod scope;
