//! A verified escrow workflow ("gig") between a client and a freelancer.
//!
//! A gig moves through a fixed six-step lifecycle driven by an integer stage.
//! The registry owns the records and the monotonic identifier allocator; the
//! transition engine enforces the role-gated, strictly ordered stage machine
//! and produces the single payment dispatch at the terminal transition.
//!
//! The core is free of ambient state: the hosting adapter supplies the caller
//! identity and any attached value explicitly, and performs the payment
//! dispatch that `confirm` returns.

pub mod engine;
pub mod gig;
pub mod laws;
pub mod registry;

pub use gig::AccountId;
pub use gig::Balance;
pub use gig::Gig;
pub use gig::GigError;
pub use gig::GigStatus;
pub use gig::Transfer;
pub use registry::NearGigs;
