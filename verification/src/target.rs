//! The `Target` sum type: one input unit for which a digest is computed.

use vstd::prelude::*;

verus! {

/// One thing to be hashed: a filesystem path (held in its platform string
/// form) or the standard input stream.
#[derive(Clone, Debug)]
pub enum Target {
    Path(String),
    Stdin,
}

/// The label under which a target is reported: a path target renders as the
/// path's own string, the standard-input target as the literal `<stdin>`.
pub open spec fn target_label(t: Target) -> Seq<char> {
    match t {
        Target::Path(p) => p@,
        Target::Stdin => "<stdin>"@,
    }
}

impl Target {
    /// The uniform display form used when reporting this target's outcome.
    pub fn display(&self) -> (r: String)
        ensures
            r@ == target_label(*self),
    {
        match self {
            Target::Path(p) => p.clone(),
            Target::Stdin => String::from_str("<stdin>"),
        }
    }
}

impl From<String> for Target {
    /// A path-like value always becomes a path target.
    fn from(value: String) -> (r: Target) {
        Target::Path(value)
    }
}

impl vstd::std_specs::convert::FromSpecImpl<String> for Target {
    open spec fn obeys_from_spec() -> bool {
        true
    }

    open spec fn from_spec(t: String) -> Target {
        Target::Path(t)
    }
}

} // verus!
