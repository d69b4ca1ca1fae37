//! Radio/MAC core for an IEEE 802.15.4 transceiver as used by a low-power
//! mesh networking stack, together with the platform abstraction surface
//! around it.
//!
//! The heart of the crate is the radio state machine ([`instance::OTInstance`])
//! with its frame exchange controller ([`exchange`]), source address match
//! table ([`match_table`]), CSL receive-window scheduler ([`csl`]), energy
//! scan control and coexistence counters ([`coex`]). The remaining modules
//! declare the platform traits and data types that drivers implement.

pub mod alarm;
pub mod backbone_router;
pub mod backbone_router_ftd;
pub mod border_router;
pub mod coex;
pub mod crypto;
pub mod csl;
pub mod entropy;
pub mod error;
pub mod exchange;
pub mod instance;
pub mod ip6;
pub mod match_table;
pub mod message;
pub mod misc;
pub mod netdata;
pub mod platform;
pub mod radio;
pub mod settings;
