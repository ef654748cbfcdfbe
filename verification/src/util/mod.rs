pub mod bindings;
pub mod cchar_nix_ext;
pub mod lazy_array;
pub mod text;
pub mod wrap;
pub mod wrappers;

pub use cchar_nix_ext::CCharPtrNixExt;
pub use lazy_array::LazyArray;
