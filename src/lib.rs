//! Pull-request context resolution and the choice of approving members for a hosted
//! Git service: reads what the local checkout knows, reconciles it with the
//! project's team members, and assembles a draft request.

pub mod model;
pub mod local;
pub mod directory;
pub mod select;
pub mod assemble;
