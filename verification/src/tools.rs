//! Function-calling configuration shared by all tools of a request.

use vstd::prelude::*;

verus! {

/// Function calling mode.
#[derive(Clone, Copy, Debug, PartialEq, Eq, Structural)]
pub enum FunctionCallingMode {
    ModeUnspecified,
    Auto,
    Any,
    NoneMode,
}

/// Function calling configuration.
#[derive(Clone, Debug, PartialEq)]
pub struct FunctionCallingConfig {
    pub mode: Option<FunctionCallingMode>,
    pub allowed_function_names: Option<Vec<String>>,
}

/// The tool configuration of a request.
#[derive(Clone, Debug, PartialEq)]
pub struct ToolConfig {
    pub function_calling_config: Option<FunctionCallingConfig>,
}

} // verus!
