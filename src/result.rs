use vstd::prelude::*;

verus! {

/// Node variants, used to decide which operation a bare command performs.
#[derive(Debug, Clone, Copy, PartialEq, Eq, Structural)]
pub enum CmdType {
    Prop,
    List,
    Action,
    NotFound,
}

/// An RGBA color. Each channel holds the IEEE-754 single-precision bit
/// pattern of a component in `0.0 ..= 1.0`.
#[derive(Debug, Clone, Copy, PartialEq, Eq, Structural)]
pub struct Color {
    pub r: u32,
    pub g: u32,
    pub b: u32,
    pub a: u32,
}

/// Bit pattern of the float `1.0`.
pub const ONE_BITS: u32 = 0x3f80_0000;

/// Bit pattern of the float `0.0`.
pub const ZERO_BITS: u32 = 0;

impl Color {
    pub open spec fn spec_white() -> Color {
        Color { r: ONE_BITS, g: ONE_BITS, b: ONE_BITS, a: ONE_BITS }
    }

    pub open spec fn spec_red() -> Color {
        Color { r: ONE_BITS, g: ZERO_BITS, b: ZERO_BITS, a: ONE_BITS }
    }

    pub open spec fn spec_cyan() -> Color {
        Color { r: ZERO_BITS, g: ONE_BITS, b: ONE_BITS, a: ONE_BITS }
    }

    /// Opaque white: the color of ordinary output.
    pub fn white() -> (c: Color)
        ensures
            c == Color::spec_white(),
    {
        Color { r: ONE_BITS, g: ONE_BITS, b: ONE_BITS, a: ONE_BITS }
    }

    /// Opaque red: the color of errors.
    pub fn red() -> (c: Color)
        ensures
            c == Color::spec_red(),
    {
        Color { r: ONE_BITS, g: ZERO_BITS, b: ZERO_BITS, a: ONE_BITS }
    }

    /// Opaque cyan: the color of the echoed prompt.
    pub fn cyan() -> (c: Color)
        ensures
            c == Color::spec_cyan(),
    {
        Color { r: ZERO_BITS, g: ONE_BITS, b: ONE_BITS, a: ONE_BITS }
    }
}

/// A piece of text with the color it is shown in.
#[derive(Debug)]
pub struct TextSpan {
    pub color: Color,
    pub text: String,
}

impl View for TextSpan {
    type V = (Color, Seq<char>);

    open spec fn view(&self) -> (Color, Seq<char>) {
        (self.color, self.text@)
    }
}

/// Error kinds of a console command. `Custom` is displayed as it is.
#[derive(Debug)]
pub enum ConsoleError {
    UnknownProperty,
    UnknownCommand,
    InvalidValue(String),
    InvalidUsage(String),
    NoResults,
    Unimplemented,
    Custom(TextSpan),
}

/// The human-readable message of an error.
pub open spec fn error_text(e: ConsoleError) -> Seq<char> {
    match e {
        ConsoleError::UnknownProperty => "Unknown property"@,
        ConsoleError::UnknownCommand => "Unknown command"@,
        ConsoleError::InvalidValue(d) => "Invalid value: "@ + d@,
        ConsoleError::InvalidUsage(d) => "Usage: "@ + d@,
        ConsoleError::NoResults => "No results"@,
        ConsoleError::Unimplemented => "Unimplemented"@,
        ConsoleError::Custom(span) => span.text@,
    }
}

impl ConsoleError {
    /// The message shown for this error.
    pub fn message(&self) -> (r: String)
        ensures
            r@ == error_text(*self),
    {
        match self {
            ConsoleError::UnknownProperty => String::from_str("Unknown property"),
            ConsoleError::UnknownCommand => String::from_str("Unknown command"),
            ConsoleError::InvalidValue(d) => {
                let mut s = String::from_str("Invalid value: ");
                s.append(d.as_str());
                s
            },
            ConsoleError::InvalidUsage(d) => {
                let mut s = String::from_str("Usage: ");
                s.append(d.as_str());
                s
            },
            ConsoleError::NoResults => String::from_str("No results"),
            ConsoleError::Unimplemented => String::from_str("Unimplemented"),
            ConsoleError::Custom(span) => span.text.clone(),
        }
    }
}

impl TextSpan {
    /// Text in the default color, opaque white.
    pub fn from_text(text: String) -> (r: TextSpan)
        ensures
            r@ == (Color::spec_white(), text@),
    {
        TextSpan { color: Color::white(), text }
    }

    /// An error's message in opaque red.
    pub fn from_error(e: &ConsoleError) -> (r: TextSpan)
        ensures
            r@ == (Color::spec_red(), error_text(*e)),
    {
        TextSpan { color: Color::red(), text: e.message() }
    }
}

/// Outcome of every console command: success text or an error.
#[derive(Debug)]
pub struct ConsoleResult(pub Result<String, ConsoleError>);

impl ConsoleResult {
    /// Success with the given text.
    pub fn ok_text(s: &str) -> (r: ConsoleResult)
        ensures
            r.0 is Ok,
            r.0->Ok_0@ == s@,
    {
        ConsoleResult(Ok(s.to_string()))
    }

    /// The wrapped result.
    pub fn as_result(&self) -> (r: &Result<String, ConsoleError>)
        ensures
            *r == self.0,
    {
        &self.0
    }
}

impl From<Result<String, ConsoleError>> for ConsoleResult {
    fn from(result: Result<String, ConsoleError>) -> (r: ConsoleResult)
        ensures
            r.0 == result,
    {
        ConsoleResult(result)
    }
}

impl vstd::std_specs::convert::FromSpecImpl<Result<String, ConsoleError>> for ConsoleResult {
    open spec fn obeys_from_spec() -> bool {
        true
    }

    open spec fn from_spec(v: Result<String, ConsoleError>) -> ConsoleResult {
        ConsoleResult(v)
    }
}

impl From<String> for ConsoleResult {
    fn from(v: String) -> (r: ConsoleResult)
        ensures
            r.0 == Ok::<String, ConsoleError>(v),
    {
        ConsoleResult(Ok(v))
    }
}

impl vstd::std_specs::convert::FromSpecImpl<String> for ConsoleResult {
    open spec fn obeys_from_spec() -> bool {
        true
    }

    open spec fn from_spec(v: String) -> ConsoleResult {
        ConsoleResult(Ok(v))
    }
}

impl From<ConsoleError> for ConsoleResult {
    fn from(e: ConsoleError) -> (r: ConsoleResult)
        ensures
            r.0 == Err::<String, ConsoleError>(e),
    {
        ConsoleResult(Err(e))
    }
}

impl vstd::std_specs::convert::FromSpecImpl<ConsoleError> for ConsoleResult {
    open spec fn obeys_from_spec() -> bool {
        true
    }

    open spec fn from_spec(e: ConsoleError) -> ConsoleResult {
        ConsoleResult(Err(e))
    }
}

} // verus!
