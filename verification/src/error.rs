//! Errors reported by the bridge, one variant per way an operation can fail.

use vstd::prelude::*;

verus! {

/// The five entry points that every module exports.
#[derive(Clone, Copy, Debug, PartialEq, Eq, Structural)]
pub enum EntryPoint {
    InfoFn,
    OpenFn,
    CloseFn,
    SetFn,
    GetFn,
}

/// The host strings that are handed to a module as null-terminated buffers.
#[derive(Clone, Copy, Debug, PartialEq, Eq, Structural)]
pub enum Argument {
    Client,
    Component,
    Object,
    Payload,
}

/// The members of a module descriptor.
#[derive(Clone, Copy, Debug, PartialEq, Eq, Structural)]
pub enum Field {
    Name,
    Description,
    Manufacturer,
    Components,
}

/// Why a payload is not a module descriptor.
#[derive(Clone, Debug, PartialEq, Eq)]
pub enum SchemaFault {
    /// The payload is not a JSON document; `message` is the parser's report.
    Syntax { message: String },
    /// The document lacks the member, or the member has the wrong type.
    Member { field: Field },
}

/// Terminal failure of one bridge operation.
#[derive(Clone, Debug, PartialEq, Eq)]
pub enum BridgeError {
    /// The path does not end in the dynamic-library suffix.
    PathValidation,
    /// The image could not be loaded; `message` is the loader's report.
    DynamicLoad { message: String },
    /// A required entry point could not be bound.
    SymbolResolution { symbol: EntryPoint, message: String },
    /// A host string holds a zero byte at `position`.
    Encoding { argument: Argument, position: usize },
    /// The module returned a null handle from its open entry point.
    Open,
    /// The module's info entry point returned a status other than success.
    ModuleCall { status: i32 },
    /// The module's info payload is not a module descriptor.
    Schema { fault: SchemaFault },
}

} // verus!
