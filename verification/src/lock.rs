pub mod acquisition;
pub mod path;

pub use acquisition::{LockStrategy, TimeoutConfig};
pub use path::{derive_lock_path, get_lock_cache_dir, validate_lock_path};
