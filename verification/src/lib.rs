//! A bounty escrow: depositors lock funds for a bounty, the admin releases
//! them to a contributor or approves refunds, depositors take back what is
//! left after the deadline, and the admin role is handed over through a
//! timelocked two-step rotation.
pub mod types;
pub mod model;
pub mod escrow;
pub mod laws;
