//! A concurrent ascending-price auction, modelled as two verified state
//! machines (the auctioneer and the bidder), together with a handful of
//! small verified utilities: rational numbers, anagram and vowel counting,
//! a double-ended list, the rules of a grid game and the states of a bank
//! account.
//!
//! The auction modules hold every decision of the protocol. Threads and
//! channels live outside this crate: the caller receives a message, hands it
//! to the state machine, and performs the action that comes back.

pub mod messaggi;
pub mod esito;
pub mod banditore;
pub mod storia;
pub mod copione;
pub mod partecipante;
pub mod razionali;
pub mod double_link;
pub mod stati;
pub mod anagrammi;
pub mod numero_vocali;
pub mod game_space;
pub mod player;
mod casuale;
