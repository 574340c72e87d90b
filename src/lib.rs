//! Bridge between a game-engine front end and its backend executable:
//! request payload rendering, backend selection and invocation decisions,
//! and interpretation of what the backend process produced.
pub mod backend;
pub mod clock;
pub mod error;
pub mod files;
pub mod payload;
