//! A relay node that intercepts "research a library" tool invocations and
//! drives each one through an isolated child session: a shared registry of
//! active child-session handles, a state machine for one research
//! orchestration, and an aggregator that turns the collected partial results
//! into a single reply.

pub mod aggregate;
pub mod orchestrator;
pub mod registry;
