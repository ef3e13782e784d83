//! Contains helper structs for error handling

use vstd::prelude::*;
use vstd::std_specs::cmp::PartialEqSpec;
use vstd::std_specs::convert::FromSpec;
use vstd::string::StringExecFns;

verus! {

/// A type for results generated by `load_obj` and `load_mtl` where the `Err` type is hard-wired to
/// `ObjError`
///
/// This typedef is generally used to avoid writing out `ObjError` directly and is otherwise a
/// direct mapping to `std::result::Result`.
pub type ObjResult<T> = Result<T, ObjError>;

/// Enum to store the various types of errors that can cause loading an OBJ to fail.
#[derive(Copy, Clone, Eq, PartialEq, Hash, Debug, Structural)]
pub enum LoadErrorKind {
    /// Met unexpected statement.
    UnexpectedStatement,
    /// Received wrong number of arguments.
    WrongNumberOfArguments,
    /// Received unexpected type of arguments.
    WrongTypeOfArguments,
    /// Model should be triangulated first to be loaded properly.
    UntriangulatedModel,
    /// Model cannot be transformed into requested form.
    InsufficientData,
    /// Received index value out of range.
    IndexOutOfRange,
    /// A line is expected after the backslash (\).
    BackslashAtEOF,
    /// Group number exceeded limitation.
    TooBigGroupNumber,
}

/// The fixed human-readable summary of each kind: one short clause per kind,
/// defined once, never derived from the message.
pub open spec fn summary_spec(kind: LoadErrorKind) -> Seq<char> {
    match kind {
        LoadErrorKind::UnexpectedStatement => "Met unexpected statement"@,
        LoadErrorKind::WrongNumberOfArguments => "Received wrong number of arguments"@,
        LoadErrorKind::WrongTypeOfArguments => "Received unexpected type of arguments"@,
        LoadErrorKind::UntriangulatedModel => (
            "Model should be triangulated first to be loaded properly"@
        ),
        LoadErrorKind::InsufficientData => "Model cannot be transformed into requested form"@,
        LoadErrorKind::IndexOutOfRange => "Received index value out of range"@,
        LoadErrorKind::BackslashAtEOF => r"A line is expected after the backslash (\)"@,
        LoadErrorKind::TooBigGroupNumber => "Group number exceeded limitation."@,
    }
}

impl LoadErrorKind {
    /// The summary of this kind, as executable text.
    pub fn summary(&self) -> (r: &'static str)
        ensures
            r@ == summary_spec(*self),
    {
        match self {
            LoadErrorKind::UnexpectedStatement => "Met unexpected statement",
            LoadErrorKind::WrongNumberOfArguments => "Received wrong number of arguments",
            LoadErrorKind::WrongTypeOfArguments => "Received unexpected type of arguments",
            LoadErrorKind::UntriangulatedModel => (
                "Model should be triangulated first to be loaded properly"
            ),
            LoadErrorKind::InsufficientData => "Model cannot be transformed into requested form",
            LoadErrorKind::IndexOutOfRange => "Received index value out of range",
            LoadErrorKind::BackslashAtEOF => r"A line is expected after the backslash (\)",
            LoadErrorKind::TooBigGroupNumber => "Group number exceeded limitation.",
        }
    }
}

/// Every kind has a summary (the mapping is total by the exhaustive match in
/// [`summary_spec`]), and no summary is empty.
pub proof fn lemma_summary_nonempty(kind: LoadErrorKind)
    ensures
        summary_spec(kind).len() > 0,
{
    reveal_strlit("Met unexpected statement");
    reveal_strlit("Received wrong number of arguments");
    reveal_strlit("Received unexpected type of arguments");
    reveal_strlit("Model should be triangulated first to be loaded properly");
    reveal_strlit("Model cannot be transformed into requested form");
    reveal_strlit("Received index value out of range");
    reveal_strlit(r"A line is expected after the backslash (\)");
    reveal_strlit("Group number exceeded limitation.");
}

/// Relies on std's `PartialEq` for `str`: two string slices are equal exactly
/// when they hold the same characters.
pub assume_specification[ <str as PartialEq<str>>::eq ](a: &str, b: &str) -> (r: bool)
    ensures
        r == (a@ == b@),
;

/// The error type for parse operations of the `Obj` struct.
///
/// A semantic failure: a closed-set [`LoadErrorKind`] paired with a
/// statically-known context message. Constructed once at the point of
/// detection, never mutated. Equality is structural over kind and message.
#[derive(Clone, Eq, Debug)]
pub struct LoadError {
    kind: LoadErrorKind,
    message: &'static str,
}

impl LoadError {
    /// The kind stored in this error.
    pub closed spec fn kind_spec(&self) -> LoadErrorKind {
        self.kind
    }

    /// The context message stored in this error, as a character sequence.
    pub closed spec fn message_spec(&self) -> Seq<char> {
        self.message@
    }

    /// The value that [`LoadError::new`] builds from a kind and a message.
    pub closed spec fn new_spec(kind: LoadErrorKind, message: &'static str) -> LoadError {
        LoadError { kind, message }
    }

    /// The rendered form of this error: its kind's summary, a separator, and
    /// its context message.
    pub open spec fn display_spec(&self) -> Seq<char> {
        summary_spec(self.kind_spec()) + ": "@ + self.message_spec()
    }

    /// Outputs the detailed cause of loading an OBJ failing.
    pub fn kind(&self) -> (r: &LoadErrorKind)
        ensures
            *r == self.kind_spec(),
    {
        &self.kind
    }

    /// Creates a new custom error from a specified kind and message.
    pub fn new(kind: LoadErrorKind, message: &'static str) -> (r: Self)
        ensures
            r == LoadError::new_spec(kind, message),
            r.kind_spec() == kind,
            r.message_spec() == message@,
    {
        LoadError { kind, message }
    }

    /// Renders this error as `"<kind summary>: <message>"`. This is the only
    /// place where summary and message are combined.
    pub fn to_display_string(&self) -> (r: String)
        ensures
            r@ == self.display_spec(),
    {
        let mut s = String::from_str(self.kind.summary());
        s.append(": ");
        s.append(self.message);
        s
    }
}

impl PartialEq for LoadError {
    fn eq(&self, other: &LoadError) -> (r: bool) {
        self.kind == other.kind && str::eq(self.message, other.message)
    }
}

impl vstd::std_specs::cmp::PartialEqSpecImpl for LoadError {
    open spec fn obeys_eq_spec() -> bool {
        true
    }

    open spec fn eq_spec(&self, other: &LoadError) -> bool {
        self.kind_spec() == other.kind_spec() && self.message_spec() == other.message_spec()
    }
}

/// Accessor fidelity: a freshly constructed error reports exactly the kind and
/// message it was given.
pub proof fn lemma_construct_fidelity(kind: LoadErrorKind, message: &'static str)
    ensures
        LoadError::new_spec(kind, message).kind_spec() == kind,
        LoadError::new_spec(kind, message).message_spec() == message@,
{
}

/// Structural equality respects the kind: two errors whose kinds differ are
/// never equal, whatever their messages.
pub proof fn lemma_kind_distinguishes(e1: LoadError, e2: LoadError)
    requires
        e1.kind_spec() != e2.kind_spec(),
    ensures
        !e1.eq_spec(&e2),
{
}

/// Declares `std::io::Error` so that it can stand in a field; its value is
/// carried through untouched.
#[verifier::external_type_specification]
#[verifier::external_body]
pub struct ExIoError(std::io::Error);

/// Declares `std::num::ParseIntError` so that it can stand in a field; its
/// value is carried through untouched.
#[verifier::external_type_specification]
#[verifier::external_body]
pub struct ExParseIntError(std::num::ParseIntError);

/// Declares `std::num::ParseFloatError` so that it can stand in a field; its
/// value is carried through untouched.
#[verifier::external_type_specification]
#[verifier::external_body]
pub struct ExParseFloatError(std::num::ParseFloatError);

/// The error type for loading of the `obj` file.
///
/// The aggregator over every failure source of a loading operation: one
/// variant per upstream cause, each owning its underlying error. Every public
/// loading operation reports its failure through this single type.
#[derive(Debug)]
pub enum ObjError {
    /// IO error has been occurred during opening the `obj` file.
    Io(std::io::Error),
    /// Tried to parse integer frome the `obj` file, but failed.
    ParseInt(std::num::ParseIntError),
    /// Tried to parse floating point number frome the `obj` file, but failed.
    ParseFloat(std::num::ParseFloatError),
    /// `LoadError` has been occurred during parseing the `obj` file.
    Load(LoadError),
}

impl From<std::io::Error> for ObjError {
    fn from(e: std::io::Error) -> (r: ObjError) {
        ObjError::Io(e)
    }
}

impl vstd::std_specs::convert::FromSpecImpl<std::io::Error> for ObjError {
    open spec fn obeys_from_spec() -> bool {
        true
    }

    open spec fn from_spec(e: std::io::Error) -> ObjError {
        ObjError::Io(e)
    }
}

impl From<std::num::ParseIntError> for ObjError {
    fn from(e: std::num::ParseIntError) -> (r: ObjError) {
        ObjError::ParseInt(e)
    }
}

impl vstd::std_specs::convert::FromSpecImpl<std::num::ParseIntError> for ObjError {
    open spec fn obeys_from_spec() -> bool {
        true
    }

    open spec fn from_spec(e: std::num::ParseIntError) -> ObjError {
        ObjError::ParseInt(e)
    }
}

impl From<std::num::ParseFloatError> for ObjError {
    fn from(e: std::num::ParseFloatError) -> (r: ObjError) {
        ObjError::ParseFloat(e)
    }
}

impl vstd::std_specs::convert::FromSpecImpl<std::num::ParseFloatError> for ObjError {
    open spec fn obeys_from_spec() -> bool {
        true
    }

    open spec fn from_spec(e: std::num::ParseFloatError) -> ObjError {
        ObjError::ParseFloat(e)
    }
}

impl From<LoadError> for ObjError {
    fn from(e: LoadError) -> (r: ObjError) {
        ObjError::Load(e)
    }
}

impl vstd::std_specs::convert::FromSpecImpl<LoadError> for ObjError {
    open spec fn obeys_from_spec() -> bool {
        true
    }

    open spec fn from_spec(e: LoadError) -> ObjError {
        ObjError::Load(e)
    }
}

impl ObjError {
    /// Renders this error. The aggregator adds no text of its own: each arm
    /// hands back the display text of the underlying cause verbatim.
    pub fn to_display_string(&self) -> (r: String)
        ensures
            self matches ObjError::Load(e) ==> r@ == e.display_spec(),
    {
        match self {
            ObjError::Io(e) => io_message(e),
            ObjError::ParseInt(e) => parse_int_message(e),
            ObjError::ParseFloat(e) => parse_float_message(e),
            ObjError::Load(e) => e.to_display_string(),
        }
    }
}

/// Relies on `std::io::Error`'s `Display`: the message of the wrapped I/O
/// failure, unchanged. Its text may depend on the machine, so nothing is
/// stated of it.
#[verifier::external_body]
fn io_message(e: &std::io::Error) -> (r: String) {
    e.to_string()
}

/// Relies on `std::num::ParseIntError`'s `Display`: the message of the wrapped
/// integer-conversion failure, unchanged.
#[verifier::external_body]
fn parse_int_message(e: &std::num::ParseIntError) -> (r: String) {
    e.to_string()
}

/// Relies on `std::num::ParseFloatError`'s `Display`: the message of the
/// wrapped float-conversion failure, unchanged.
#[verifier::external_body]
fn parse_float_message(e: &std::num::ParseFloatError) -> (r: String) {
    e.to_string()
}

/// Builds a semantic error of the given kind and message, already lifted into
/// the failure arm of a loading result. A validation site raises a failure and
/// unconditionally ends its operation by `return make_error(...)`.
pub fn make_error<T>(kind: LoadErrorKind, message: &'static str) -> (r: ObjResult<T>)
    ensures
        r matches Err(ObjError::Load(e)) && e == LoadError::new_spec(kind, message)
            && e.kind_spec() == kind && e.message_spec() == message@,
{
    Err(ObjError::from(LoadError::new(kind, message)))
}

/// Lifting a failure into the aggregator always yields the matching variant,
/// owning the original cause unchanged.
pub proof fn lemma_lift_preserves_cause(
    io_failure: std::io::Error,
    int_failure: std::num::ParseIntError,
    float_failure: std::num::ParseFloatError,
    semantic_failure: LoadError,
)
    ensures
        ObjError::from_spec(io_failure) == ObjError::Io(io_failure),
        ObjError::from_spec(int_failure) == ObjError::ParseInt(int_failure),
        ObjError::from_spec(float_failure) == ObjError::ParseFloat(float_failure),
        ObjError::from_spec(semantic_failure) == ObjError::Load(semantic_failure),
{
}

/// Round trip: wrapping a semantic error in the aggregator and extracting it
/// again returns a value structurally equal to the original.
pub proof fn lemma_semantic_round_trip(e: LoadError)
    ensures
        ObjError::Load(e)->Load_0 == e,
        (ObjError::Load(e)->Load_0).eq_spec(&e),
{
}

} // verus!
