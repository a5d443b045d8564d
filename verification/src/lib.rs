//! Request-serving front end for a local text-generation backend: prompt
//! assembly, context budgets, the token-emission session, inline tool-call
//! extraction and the bounded streaming bridge.

pub mod bridge;
pub mod budget;
pub mod clock;
pub mod config;
pub mod engine;
pub mod errors;
pub mod extract;
pub mod grammar;
pub mod json;
pub mod message;
pub mod models;
pub mod openai;
pub mod plan;
pub mod prompt;
pub mod responses;
pub mod seed;
pub mod serve;
pub mod session;
pub mod text;
pub mod tools;
