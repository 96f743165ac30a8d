//! What holds of the launchpad as a whole.
pub mod action;
pub mod burning;
pub mod commitments;
pub mod consistency;
pub mod creation;
pub mod curve;
pub mod escrow;
pub mod flow;
pub mod launching;
pub mod lifecycle;
pub mod migrations;
pub mod order;
pub mod outcomes;
pub mod passed;
pub mod payees;
pub mod pricing;
pub mod rules;
pub mod supply;
pub mod trading;
