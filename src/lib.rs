//! Execution context and deferred-action scheduling for a bytecode
//! interpreter that drives a garbage-collected display list.
pub mod action;
pub mod context;
pub mod render;
pub mod value;

pub use action::{ActionQueue, ActionType, QueuedActions};
pub use context::{TargetLookup, UpdateContext};
pub use render::{BoundingBox, Depth, RenderContext, RenderOp, Transform, TransformStack};
pub use value::{DisplayObject, SwfSlice, SystemListener, Twips, Value};
