//! A crowdfunding campaign on the Stellar network, as a contract that decides
//! and a host that acts.
//!
//! - [`types`]: the campaign, its milestones, its donors, and the errors.
//! - [`validation`], [`assets`], [`transitions`]: the rules.
//! - [`storage`]: what is kept and announced, and a model of storage.
//! - [`contract`]: the contract's functions, each with its exact outcome.
//! - [`operations`]: what each function answers, told by its arguments alone.
//! - [`laws`]: what holds over all calls of a contract.
//! - [`sdk`]: what is taken from the SDK without proof.

pub mod assets;
pub mod contract;
pub mod laws;
pub mod operations;
pub mod sdk;
pub mod storage;
pub mod transitions;
pub mod types;
pub mod validation;

pub use crate::contract::{CampaignContract, VERSION};
pub use crate::transitions::{validate_campaign_transition, validate_milestone_transition};
