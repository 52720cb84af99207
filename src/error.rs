use vstd::prelude::*;

verus! {

/// A recoverable failure: either the engine's own last-error text, or an
/// inconsistency that this layer detected itself.
#[derive(Debug, Clone)]
pub enum MXError {
    /// The engine reported a failure; the text is its last-error message.
    Engine(String),
    /// A load reported a different number of names than of tensors.
    NamesMismatch,
    /// A named load found no names in the file.
    MissingNames,
    /// The operator registry holds no creator of this name.
    UnknownOperator(String),
    /// A graph builder was given both positional and keyed inputs.
    MixedInputs,
    /// A count or index does not fit the engine's integer type.
    OutOfRange,
}

pub type MXResult<T> = Result<T, MXError>;

impl MXError {
    /// An engine failure carrying the given last-error text.
    pub fn new(errmsg: &str) -> (r: Self)
        ensures
            r matches MXError::Engine(m) && m@ == errmsg@,
    {
        MXError::Engine(errmsg.to_owned())
    }

    /// The human-readable text of the error.
    pub open spec fn spec_description(&self) -> Seq<char> {
        match self {
            MXError::Engine(m) => m@,
            MXError::NamesMismatch => "NDArray load with names size mismatch"@,
            MXError::MissingNames => "NDArray load missing names"@,
            MXError::UnknownOperator(n) => "unknown operator: "@ + n@,
            MXError::MixedInputs => "symbol inputs are neither all positional nor all keyed"@,
            MXError::OutOfRange => "value does not fit the engine's integer type"@,
        }
    }

    pub fn description(&self) -> (r: String)
        ensures
            r@ == self.spec_description(),
    {
        match self {
            MXError::Engine(m) => m.clone(),
            MXError::NamesMismatch => "NDArray load with names size mismatch".to_owned(),
            MXError::MissingNames => "NDArray load missing names".to_owned(),
            MXError::UnknownOperator(n) => {
                let r = "unknown operator: ".to_owned();
                proof {
                    reveal_strlit("unknown operator: ");
                }
                r.concat(n.as_str())
            },
            MXError::MixedInputs => "symbol inputs are neither all positional nor all keyed".to_owned(),
            MXError::OutOfRange => "value does not fit the engine's integer type".to_owned(),
        }
    }

    /// The text shown to a user: the description behind a fixed prefix.
    pub fn message(&self) -> (r: String)
        ensures
            r@ == "mxnet error: "@ + self.spec_description(),
    {
        let d = self.description();
        let r = "mxnet error: ".to_owned();
        proof {
            reveal_strlit("mxnet error: ");
        }
        r.concat(d.as_str())
    }
}

/// The failure value of a native call whose last-error text is `errmsg`.
pub fn error_result<T>(errmsg: &str) -> (r: MXResult<T>)
    ensures
        r matches Err(MXError::Engine(m)) && m@ == errmsg@,
{
    Err(MXError::new(errmsg))
}

} // verus!
