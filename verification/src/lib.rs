use vstd::prelude::*;

pub mod bridge;
pub mod fusion;
pub mod jvm;
pub mod util;

pub use crate::jvm::JvmFunctionFactory;

verus! {

/// Failure taxonomy of the bridge.
///
/// Registration-time failures (`RuntimeStartError` through
/// `UnsupportedTypeError` and `InvalidDefinitionError`) are reported to the
/// caller that registered the function; call-time failures
/// (`BufferImportError`, `ManagedRuntimeException`) fail the one invocation
/// that raised them. Each variant carries a diagnostic message.
#[derive(Debug)]
pub enum JvmFunctionError {
    /// Booting or attaching to the embedded managed runtime failed.
    RuntimeStartError(String),
    /// The named class could not be located in the managed runtime.
    ClassNotFoundError(String),
    /// The class exists but the expected method signature does not.
    MethodNotFoundError(String),
    /// Constructing an instance through the zero-argument constructor failed.
    InstantiationError(String),
    /// No class declaration could be found in submitted source text.
    SourceParseError(String),
    /// The in-runtime compiler service rejected the submitted source.
    CompilationError(String),
    /// The declared return type is outside the supported set.
    UnsupportedTypeError(String),
    /// A column descriptor on the exchange path was malformed or inconsistent.
    BufferImportError(String),
    /// User code inside the managed runtime threw during a call.
    ManagedRuntimeException(String),
    /// The definition request named neither source text nor a class.
    InvalidDefinitionError(String),
}

impl JvmFunctionError {
    /// The diagnostic message carried by the error.
    pub open spec fn spec_message(&self) -> Seq<char> {
        match self {
            JvmFunctionError::RuntimeStartError(m) => m@,
            JvmFunctionError::ClassNotFoundError(m) => m@,
            JvmFunctionError::MethodNotFoundError(m) => m@,
            JvmFunctionError::InstantiationError(m) => m@,
            JvmFunctionError::SourceParseError(m) => m@,
            JvmFunctionError::CompilationError(m) => m@,
            JvmFunctionError::UnsupportedTypeError(m) => m@,
            JvmFunctionError::BufferImportError(m) => m@,
            JvmFunctionError::ManagedRuntimeException(m) => m@,
            JvmFunctionError::InvalidDefinitionError(m) => m@,
        }
    }

    pub fn message(&self) -> (r: &String)
        ensures
            r@ == self.spec_message(),
    {
        match self {
            JvmFunctionError::RuntimeStartError(m) => m,
            JvmFunctionError::ClassNotFoundError(m) => m,
            JvmFunctionError::MethodNotFoundError(m) => m,
            JvmFunctionError::InstantiationError(m) => m,
            JvmFunctionError::SourceParseError(m) => m,
            JvmFunctionError::CompilationError(m) => m,
            JvmFunctionError::UnsupportedTypeError(m) => m,
            JvmFunctionError::BufferImportError(m) => m,
            JvmFunctionError::ManagedRuntimeException(m) => m,
            JvmFunctionError::InvalidDefinitionError(m) => m,
        }
    }
}

} // verus!
