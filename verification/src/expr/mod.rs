pub mod eval_state;
pub mod eval_state_builder;
pub mod realised_string;
pub mod values;
pub mod valuetype;

pub use eval_state::EvalState;
pub use eval_state_builder::EvalStateBuilder;
pub use realised_string::RealisedString;
pub use values::{NixAttrs, NixBool, NixFloat, NixFunction, NixInt, NixList, NixNull, NixPath, NixString, NixThunk, NixValue, Value};
pub use valuetype::ValueType;
