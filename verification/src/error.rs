//! The errors of the library.
use vstd::prelude::*;

verus! {

/// The variant of a value, without its contents.
#[derive(Clone, Copy, Debug, PartialEq, Eq, Structural)]
pub enum PBXValueKind {
    /// A string.
    String,
    /// An object.
    Object,
    /// An array.
    Vec,
    /// A number.
    Number,
    /// A boolean.
    Bool,
    /// An object kind.
    Kind,
    /// Nothing.
    Null,
}

/// What the parser wanted to read at the place where it stopped.
#[derive(Clone, Copy, Debug, PartialEq, Eq, Structural)]
pub enum PBXSyntaxElement {
    /// The `{` that opens an object.
    ObjectOpen,
    /// The key of a field, or the `}` that closes the object.
    KeyOrObjectClose,
    /// The `=` between a key and its value.
    Equals,
    /// A value.
    Value,
    /// The `;` that ends a field.
    Semicolon,
    /// The `,` that ends an element of an array.
    Comma,
    /// The `"` that closes a quoted string.
    StringClose,
    /// A number small enough to be held.
    NumberInRange,
    /// The end of the text.
    EndOfInput,
}

/// Why an operation of the library failed.
#[derive(Debug)]
#[allow(inconsistent_fields)]
pub enum PBXError {
    /// The text is not a project file: `expected` was wanted at the character
    /// with index `position`.
    Syntax { position: usize, expected: PBXSyntaxElement },
    /// An object has no field `key`; `object` is the identifier of the object,
    /// when it is known.
    MissingField { key: String, object: Option<String> },
    /// A value is not of the variant that was asked for.
    TypeMismatch { expected: PBXValueKind, actual: PBXValueKind },
    /// The object `id` is not of the kind that was asked for.
    KindMismatch { id: String },
    /// No object with the identifier `id` could be had from the collection.
    DanglingReference { id: String },
    /// The path of the reference `id` hangs on a source tree that paths cannot
    /// be resolved against.
    UnsupportedSourceTree { id: String },
    /// The reference `id` is neither the main group of a project nor the child
    /// of a group whose path can be resolved.
    UnresolvedPath { id: String },
    /// A version requirement names the rule `kind`, which is not known.
    UnknownVersionRequirement { kind: String },
    /// The number under `key` is outside the range that it must lie in.
    OutOfRange { key: String },
}

/// The mathematical value of a [`PBXError`].
#[allow(inconsistent_fields)]
pub enum PBXErrorView {
    Syntax { position: int, expected: PBXSyntaxElement },
    MissingField { key: Seq<char>, object: Option<Seq<char>> },
    TypeMismatch { expected: PBXValueKind, actual: PBXValueKind },
    KindMismatch { id: Seq<char> },
    DanglingReference { id: Seq<char> },
    UnsupportedSourceTree { id: Seq<char> },
    UnresolvedPath { id: Seq<char> },
    UnknownVersionRequirement { kind: Seq<char> },
    OutOfRange { key: Seq<char> },
}

impl View for PBXError {
    type V = PBXErrorView;

    open spec fn view(&self) -> PBXErrorView {
        match self {
            PBXError::Syntax { position, expected } => PBXErrorView::Syntax {
                position: *position as int,
                expected: *expected,
            },
            PBXError::MissingField { key, object } => PBXErrorView::MissingField {
                key: key@,
                object: crate::text::opt_text(*object),
            },
            PBXError::TypeMismatch { expected, actual } => PBXErrorView::TypeMismatch {
                expected: *expected,
                actual: *actual,
            },
            PBXError::KindMismatch { id } => PBXErrorView::KindMismatch { id: id@ },
            PBXError::DanglingReference { id } => PBXErrorView::DanglingReference { id: id@ },
            PBXError::UnsupportedSourceTree { id } => PBXErrorView::UnsupportedSourceTree {
                id: id@,
            },
            PBXError::UnresolvedPath { id } => PBXErrorView::UnresolvedPath { id: id@ },
            PBXError::OutOfRange { key } => PBXErrorView::OutOfRange { key: key@ },
            PBXError::UnknownVersionRequirement { kind } => PBXErrorView::UnknownVersionRequirement {
                kind: kind@,
            },
        }
    }
}

/// The error `e`, as an error of the object `id`: where `e` says that a field
/// is missing and not of which object, the result says so of `id`.
pub open spec fn error_within(e: PBXErrorView, id: Seq<char>) -> PBXErrorView {
    match e {
        PBXErrorView::MissingField { key, object: None } => PBXErrorView::MissingField {
            key,
            object: Some(id),
        },
        _ => e,
    }
}

/// What `r` holds, with its error taken as an error of the object `id`.
pub fn within<T>(r: Result<T, PBXError>, id: &str) -> (out: Result<T, PBXError>)
    ensures
        match r {
            Ok(x) => out == Ok::<T, PBXError>(x),
            Err(e) => out is Err && out->Err_0@ == error_within(e@, id@),
        },
{
    match r {
        Ok(x) => Ok(x),
        Err(e) => Err(e.within(id)),
    }
}

impl PBXError {
    /// Whether this is a syntax error.
    pub fn is_syntax(&self) -> (r: bool)
        ensures
            r == (self@ is Syntax),
    {
        matches!(self, PBXError::Syntax { .. })
    }

    /// Whether this says that the field `key` is missing, of whatever object.
    pub fn is_missing_field(&self, key: &str) -> (r: bool)
        ensures
            r == (self@ matches PBXErrorView::MissingField { key: k, .. } && k == key@),
    {
        match self {
            PBXError::MissingField { key: k, .. } => crate::text::same_text(k.as_str(), key),
            _ => false,
        }
    }

    /// This error, as an error of the object `id`: where it says that a field
    /// is missing and not of which object, it says so of `id`.
    pub fn within(self, id: &str) -> (r: PBXError)
        ensures
            r@ == error_within(self@, id@),
    {
        match self {
            PBXError::MissingField { key, object: None } => PBXError::MissingField {
                key,
                object: Some(String::from_str(id)),
            },
            other => other,
        }
    }
}

} // verus!
