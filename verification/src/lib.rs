//! A small ledger state-transition module.
//!
//! A signed caller submits a 32-bit value. The module stores the value in a
//! single slot, mirrors the caller's reserved balance as it stood at that
//! moment into a per-account table, and appends one event to a log that
//! observers read in emission order. A call that is not signed changes
//! nothing.
pub mod asset;
pub mod currency;
pub mod events;
pub mod laws;
pub mod model;
pub mod origin;
pub mod pallet;
pub mod store;

pub use asset::AssetDetails;
pub use currency::{reserved_in, Config, Reserves};
pub use events::{Event, EventLog};
pub use model::{named_in, signed_by, Ledger, Submission};
pub use origin::{ensure_signed, signer, AccountId, Balance, RawOrigin, TransitionError};
pub use pallet::{outcome, submission, Pallet};
pub use store::{StateStore, StoreState};
