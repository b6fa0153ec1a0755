use vstd::prelude::*;

verus! {

/// Errors encountered during object initialization.
#[non_exhaustive]
#[derive(Debug, Clone)]
pub enum BuildError {
    /// A field was not initialized before calling `.build()` in a builder.
    UninitializedField(&'static str),
    /// A validation check failed.
    ValidationError(String),
}

impl BuildError {
    /// A human-readable rendering of the error.
    pub fn message(&self) -> (r: String)
        ensures
            self matches BuildError::ValidationError(m) ==> r@ == "Validation error: "@ + m@,
            self matches BuildError::UninitializedField(f) ==> r@ == "Uninitialized field: "@
                + f@,
    {
        match self {
            BuildError::UninitializedField(f) => {
                let mut s = "Uninitialized field: ".to_owned();
                s.append(f);
                s
            },
            BuildError::ValidationError(m) => {
                let mut s = "Validation error: ".to_owned();
                s.append(m.as_str());
                s
            },
        }
    }
}

/// Errors encountered while building an object from parts.
///
/// Same shape as [`BuildError`]; kept separate so that builders can
/// evolve their error reporting independently.
#[non_exhaustive]
#[derive(Debug, Clone)]
pub enum BuilderError {
    /// A field was not initialized before calling `.build()` in a builder.
    UninitializedField(&'static str),
    /// A validation check failed.
    ValidationError(String),
}

impl BuilderError {
    /// A human-readable rendering of the error.
    pub fn message(&self) -> (r: String)
        ensures
            self matches BuilderError::ValidationError(m) ==> r@ == "Validation error: "@ + m@,
            self matches BuilderError::UninitializedField(f) ==> r@ == "Uninitialized field: "@
                + f@,
    {
        match self {
            BuilderError::UninitializedField(f) => {
                let mut s = "Uninitialized field: ".to_owned();
                s.append(f);
                s
            },
            BuilderError::ValidationError(m) => {
                let mut s = "Validation error: ".to_owned();
                s.append(m.as_str());
                s
            },
        }
    }
}

} // verus!
