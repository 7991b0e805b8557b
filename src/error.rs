use vstd::prelude::*;

verus! {

/// What went wrong while resolving one argument.
#[derive(Clone, Copy, Debug, PartialEq, Eq, Structural)]
pub enum ErrorKind {
    /// The transport validator of the runtime refused the transport name.
    InvalidTransport,
    /// The text is not a non-negative base-10 integer that fits in 32 bits.
    InvalidInteger,
    /// The text does not read as a floating-point number.
    InvalidFloat,
    /// The number read is not finite and strictly positive.
    OutOfRange,
    /// The label names no variant of the enumeration.
    UnknownVariant,
}

/// The recognised flags.
#[derive(Clone, Copy, Debug, PartialEq, Eq, Structural)]
pub enum Field {
    Ipc,
    InitCwnd,
    DefaultDelta,
    DeltaMode,
}

impl Field {
    /// The flag's name on the command line, without dashes.
    pub open spec fn spec_name(self) -> Seq<char> {
        match self {
            Field::Ipc => "ipc"@,
            Field::InitCwnd => "init_cwnd"@,
            Field::DefaultDelta => "default_delta"@,
            Field::DeltaMode => "delta_mode"@,
        }
    }

    pub fn name(&self) -> (r: &'static str)
        ensures
            r@ == self.spec_name(),
    {
        match self {
            Field::Ipc => "ipc",
            Field::InitCwnd => "init_cwnd",
            Field::DefaultDelta => "default_delta",
            Field::DeltaMode => "delta_mode",
        }
    }
}

/// A failure to resolve the arguments: which flag, why, and the text given.
#[derive(Clone, Debug)]
pub struct ResolutionError {
    pub kind: ErrorKind,
    pub field: Field,
    pub value: String,
}

impl View for ResolutionError {
    type V = (ErrorKind, Field, Seq<char>);

    open spec fn view(&self) -> (ErrorKind, Field, Seq<char>) {
        (self.kind, self.field, self.value@)
    }
}

impl ResolutionError {
    pub fn new(kind: ErrorKind, field: Field, value: &str) -> (r: ResolutionError)
        ensures
            r@ == (kind, field, value@),
    {
        ResolutionError { kind, field, value: value.to_owned() }
    }
}

} // verus!
