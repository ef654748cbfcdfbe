//! Flakes: settings, references, lock parameters and locked flakes.

pub mod eval_state_builder_ext;
pub mod fetchers_settings;
pub mod flake_lock_flags;
pub mod flake_reference;
pub mod flake_reference_parse_flags;
pub mod flake_settings;
pub mod locked_flake;

pub use eval_state_builder_ext::EvalStateBuilderExt;
pub use fetchers_settings::FetchersSettings;
pub use flake_lock_flags::{FlakeLockFlags, FlakeLockMode};
pub use flake_reference::FlakeRef;
pub use flake_reference_parse_flags::FlakeReferenceParseFlags;
pub use flake_settings::FlakeSettings;
pub use locked_flake::LockedFlake;
