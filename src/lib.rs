//! A safety layer over a native tensor and symbolic-graph engine: the
//! decisions it makes around the engine's handles, stated and proved.

pub mod arith;
pub mod context;
pub mod error;
pub mod registry;
pub mod shape;
pub mod symbol;
pub mod tensor;

pub use context::{Context, DeviceType};
pub use error::{error_result, MXError, MXResult};
pub use shape::{dims_to_shape, product, shape_size};
pub use registry::{entries_map, Registry};
pub use tensor::{CreateArgs, NDArrayBuilder};
pub use symbol::{ComposeAction, ComposeEvent, ComposeStage, SymbolBuilder, SymbolPlan};
pub use arith::ArithOp;
