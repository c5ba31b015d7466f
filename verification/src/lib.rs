//! Holdings-snapshot maintenance for a portfolio tracker: the lot-strip
//! migration of stored snapshots (cost-basis backfill from embedded tax lots,
//! then stripping the lots), the TRANSFER_IN / TRANSFER_OUT handlers of the
//! holdings calculator, and the projection of captured changes onto the sync
//! outbox.
pub mod decimal;
pub mod position;
pub mod strip;
pub mod writes;
pub mod currency;
pub mod migration;
pub mod transfers;
pub mod transfer_in;
pub mod transfer_out;
pub mod outbox;
