pub mod cchar_ptr_ext;
pub mod slice;

pub use cchar_ptr_ext::{AsCPtr, CCharPtrExt};
pub use slice::SliceExt;
