//! Core logic of a sticker-collecting chat bot: a pending-confirmation
//! registry keyed by one-shot tokens, an event router, and the decision
//! logic for adding a submitted sticker to a managed collection or
//! removing it again.

pub mod collection;
pub mod random;
pub mod registry;
pub mod router;
pub mod sticker;
pub mod text;
