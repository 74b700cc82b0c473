//! HStack: tickets, offline sync, planning rules and agent bookkeeping, with
//! their contracts proved by Verus.

pub mod text;
pub mod json;
pub mod clock;
pub mod ticket;
pub mod decode;
pub mod update;
pub mod sync;
pub mod provider;
pub mod planner;
pub mod tools;
pub mod settings;
pub mod find;
pub mod locations;
pub mod commute;
pub mod pending;
pub mod ratelimit;
pub mod voice;
pub mod integration;
pub mod api_models;
pub mod jsontext;
pub mod chat;
pub mod planner_reply;
pub mod agent;
pub mod encode;
pub mod agent_tools;
pub mod temporal;
pub mod tool_calls;
pub mod server;
pub mod keystore;
pub mod openai;
pub mod statehash;
pub mod prompts;
pub mod roundtrip;

use vstd::prelude::*;

verus! {

} // verus!
