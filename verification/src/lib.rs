//! Buyer-side mock of a catalog punch-out integration.
//!
//! The library keeps a registry of punch-out processes, assembles the
//! redirect that sends a shopper into the remote catalog, accepts the
//! call-up payload that comes back, extracts the order fields from it,
//! and synthesizes the purchase-order document that a confirmation
//! sends upstream.  All text is handled as UTF-8 bytes (`Vec<u8>`);
//! the HTTP layer around the library converts at its edge.

pub mod decimal;
pub mod document;
pub mod encoding;
pub mod errors;
pub mod external;
pub mod laws;
pub mod lifecycle;
pub mod payload;
pub mod redirect;
pub mod registry;
pub mod template;
pub mod text;
