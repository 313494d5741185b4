//! A hierarchically owned record store: user profiles own repositories,
//! repositories own to-do items. Every record lives at a storage slot whose
//! address is derived deterministically from a namespace tag, the owner's
//! identity and a numeric index, every mutation checks the ownership chain,
//! and escrowed to-do creation is gated by a checked value transfer.

pub mod addr;
pub mod error;
pub mod laws;
pub mod ops;
pub mod states;

pub use error::TodoError;
pub use states::AccountId;
pub use states::EscrowState;
pub use states::UserProfile;
pub use states::UserRepos;
pub use states::UserTickets;
