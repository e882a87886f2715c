//! Responder core for multicast DNS service discovery.
//!
//! The library holds the verified heart of an mDNS responder: deciding which
//! resource records answer a question, routing answers to the unicast or the
//! multicast path, building unsolicited announcements, and the command and
//! outbound-queue handling of the per-address-family driver. Wire-format
//! encoding, the UDP socket and the command channel are collaborators that an
//! embedding program supplies around this core.

pub mod types;
pub mod registry;
pub mod builder;
pub mod fsm;
pub mod props;
