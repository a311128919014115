use vstd::prelude::*;

verus! {

/// The naming policy for toolchain names. It is a deliberate placeholder:
/// no name is accepted yet, and a real grammar (non-empty, alphanumeric plus
/// separators, ...) is still to be decided. Contracts and callers go through
/// this single predicate, so only it and `ToolchainId::parse` change once a
/// real policy exists.
pub open spec fn name_accepted(name: Seq<char>) -> bool {
    false
}

/// The ways a toolchain entry can be invalid. Each variant carries the
/// offending input text unchanged.
#[derive(Debug)]
pub enum ToolchainError {
    InvalidToolchainName { name: String },
    UnknownToolchainVersion { version: String },
}

impl ToolchainError {
    /// The text this error displays as; `message` produces exactly this.
    pub open spec fn message_view(self) -> Seq<char> {
        match self {
            ToolchainError::InvalidToolchainName { name } => "invalid toolchain name: "@ + name@,
            ToolchainError::UnknownToolchainVersion { version } => (
                "unknown toolchain version: "@ + version@
            ),
        }
    }

    /// Renders the error for humans: the kind of failure, then the input
    /// that caused it.
    pub fn message(&self) -> (r: String)
        ensures
            r@ == self.message_view(),
    {
        match self {
            ToolchainError::InvalidToolchainName { name } => {
                let mut r = String::from_str("invalid toolchain name: ");
                r.append(name.as_str());
                r
            },
            ToolchainError::UnknownToolchainVersion { version } => {
                let mut r = String::from_str("unknown toolchain version: ");
                r.append(version.as_str());
                r
            },
        }
    }
}

/// A validated toolchain name. A value exists only for a name the naming
/// policy accepted, so holding a `ToolchainId` is itself evidence of
/// validation; the only constructor is `parse`.
#[derive(Debug, Hash)]
pub struct ToolchainId(String);

impl View for ToolchainId {
    type V = Seq<char>;

    closed spec fn view(&self) -> Seq<char> {
        self.0@
    }
}

impl PartialEq for ToolchainId {
    /// Identifiers are equal exactly when the wrapped names are.
    fn eq(&self, other: &ToolchainId) -> (r: bool) {
        self.0 == other.0
    }
}

impl Eq for ToolchainId {}

impl vstd::std_specs::cmp::PartialEqSpecImpl for ToolchainId {
    open spec fn obeys_eq_spec() -> bool {
        true
    }

    open spec fn eq_spec(&self, other: &ToolchainId) -> bool {
        self@ == other@
    }
}

impl ToolchainId {
    /// Validates a raw name. Exactly the names the policy accepts yield an
    /// identifier wrapping that name; every other name is rejected with an
    /// `InvalidToolchainName` carrying the offending input unchanged. Under
    /// the current placeholder policy that is every name.
    pub fn parse(s: &str) -> (r: Result<ToolchainId, ToolchainError>)
        ensures
            r matches Ok(id) ==> name_accepted(s@) && id@ == s@,
            r matches Err(e) ==> !name_accepted(s@) && (e matches ToolchainError::InvalidToolchainName {
                name,
            } && name@ == s@),
    {
        Err(ToolchainError::InvalidToolchainName { name: String::from_str(s) })
    }

    /// The validated name itself.
    pub fn name(&self) -> (r: &String)
        ensures
            r@ == self@,
    {
        &self.0
    }
}

} // verus!
