/// Bit fields of the packed instruction word.
pub mod layout;
/// Lua 5.0 settings and instruction set.
pub mod lua50;
/// Lua 5.1 settings and instruction set.
pub mod lua51;
/// Operand values and how each kind reads, writes and renumbers.
pub mod operand;
/// The combined conversion settings.
pub mod settings;

pub use layout::{InstructionLayout, OperandType};
pub use operand::{Mode, OpShape, OperandKind, OperandMode, BC};
pub use settings::Settings;
