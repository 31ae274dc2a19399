//! Self-contained, in-place self-updates: the verified decision logic of a
//! three-phase updater (prepare, replace, cleanup), release selection,
//! asset matching and download integrity checking.
pub mod text;
pub mod glob;
pub mod release;
pub mod naming;
pub mod integrity;
pub mod state;
pub mod error;
pub mod phases;
pub mod github;
pub mod files;
pub mod relaunch;

pub use error::UpdateError;
pub use github::GitHubSource;
pub use phases::{PhasePlan, Step};
pub use release::{Release, ReleaseVariant, ReleaseVersion};
pub use relaunch::{Relaunch, RESUME_FLAG};
pub use state::{UpdatePhase, UpdateState};
