//! The polymorphic error value and its disclosure algorithm.
//!
//! A `CargoError` is a description, an optional owned cause, and a `human`
//! flag. The cause links form a finite, acyclic chain by construction:
//! a cause is owned exclusively by the error that wraps it, transferred at
//! construction and never mutated afterward. `response` decides what, if
//! anything, is disclosed externally: walking outward-in, the first error
//! whose `human` flag is set supplies the detail text; sentinels override
//! the walk with a fixed status and body of their own.

use crate::response::{error_response, response_model, Response, DEFAULT_ERROR_STATUS};
use vstd::prelude::*;

verus! {

/// An error with causal context. `Concrete` is the general data-bearing
/// form; `Chained` wraps an original failure (the cause) under a new
/// contextual error; `NotFound` and `Unauthorized` are sentinels with a
/// fixed response; `Generic` adapts a foreign error that offers nothing
/// but a description.
#[allow(inconsistent_fields)]
#[derive(Debug)]
pub enum CargoError {
    Concrete {
        description: String,
        detail: Option<String>,
        cause: Option<Box<CargoError>>,
        human: bool,
    },
    Chained { error: Box<CargoError>, cause: Box<CargoError> },
    NotFound,
    Unauthorized,
    Generic { description: String },
}

/// The failure side of every fallible operation in this core.
pub type CargoResult<T> = Result<T, CargoError>;

impl CargoError {
    /// The diagnostic description; a chained error answers with the
    /// description of its outer, contextual error.
    pub open spec fn spec_description(self) -> Seq<char>
        decreases self,
    {
        match self {
            CargoError::Concrete { description, .. } => description@,
            CargoError::Chained { error, .. } => error.spec_description(),
            CargoError::NotFound => "not found"@,
            CargoError::Unauthorized => "unauthorized"@,
            CargoError::Generic { description } => description@,
        }
    }

    /// Whether the description is safe to disclose externally; a chained
    /// error delegates to its outer, contextual error.
    pub open spec fn spec_human(self) -> bool
        decreases self,
    {
        match self {
            CargoError::Concrete { human, .. } => human,
            CargoError::Chained { error, .. } => error.spec_human(),
            CargoError::NotFound => false,
            CargoError::Unauthorized => false,
            CargoError::Generic { .. } => false,
        }
    }

    /// The wrapped lower-level failure, if any.
    pub open spec fn spec_cause(self) -> Option<CargoError> {
        match self {
            CargoError::Concrete { cause: Some(c), .. } => Some(*c),
            CargoError::Chained { cause, .. } => Some(*cause),
            _ => None,
        }
    }

    /// The display text: the description, with the detail appended in
    /// parentheses when one is present.
    pub open spec fn spec_display(self) -> Seq<char>
        decreases self,
    {
        match self {
            CargoError::Concrete { description, detail, .. } => match detail {
                Some(d) => description@ + " ("@ + d@ + ")"@,
                None => description@,
            },
            CargoError::Chained { error, .. } => error.spec_display(),
            CargoError::NotFound => "Not Found"@,
            CargoError::Unauthorized => "must be logged in to perform that action"@,
            CargoError::Generic { description } => description@,
        }
    }

    /// Whether this is a sentinel kind, whose response is fixed and
    /// independent of the human/cause walk.
    pub open spec fn is_sentinel(self) -> bool {
        self is NotFound || self is Unauthorized
    }

    /// What is disclosed externally, if anything: a sentinel answers with
    /// its fixed response; otherwise the first human error found walking
    /// outward-in supplies the detail, and a chain with no human error
    /// discloses nothing.
    pub open spec fn spec_response(self) -> Option<(u16, Seq<Seq<char>>)>
        decreases self,
    {
        match self {
            CargoError::NotFound => Some(response_model(404, "Not Found"@)),
            CargoError::Unauthorized => Some(
                response_model(403, "must be logged in to perform that action"@),
            ),
            CargoError::Concrete { description, detail, cause, human } => if human {
                Some(response_model(DEFAULT_ERROR_STATUS, description@))
            } else {
                match cause {
                    Some(c) => c.spec_response(),
                    None => None,
                }
            },
            CargoError::Chained { error, cause } => if error.spec_human() {
                Some(response_model(DEFAULT_ERROR_STATUS, error.spec_description()))
            } else {
                cause.spec_response()
            },
            CargoError::Generic { .. } => None,
        }
    }

    /// The diagnostic description of this error.
    pub fn description(&self) -> (r: &str)
        ensures
            r@ == self.spec_description(),
        decreases self,
    {
        match self {
            CargoError::Concrete { description, .. } => description.as_str(),
            CargoError::Chained { error, .. } => error.description(),
            CargoError::NotFound => "not found",
            CargoError::Unauthorized => "unauthorized",
            CargoError::Generic { description } => description.as_str(),
        }
    }

    /// The wrapped lower-level failure, if any.
    pub fn cause(&self) -> (r: Option<&CargoError>)
        ensures
            match r {
                Some(c) => self.spec_cause() == Some(*c),
                None => self.spec_cause() is None,
            },
    {
        match self {
            CargoError::Concrete { cause: Some(c), .. } => Some(&**c),
            CargoError::Chained { cause, .. } => Some(&**cause),
            _ => None,
        }
    }

    /// Whether the description is safe to disclose externally.
    pub fn human(&self) -> (r: bool)
        ensures
            r == self.spec_human(),
        decreases self,
    {
        match self {
            CargoError::Concrete { human, .. } => *human,
            CargoError::Chained { error, .. } => error.human(),
            CargoError::NotFound => false,
            CargoError::Unauthorized => false,
            CargoError::Generic { .. } => false,
        }
    }

    /// The externally disclosed response, if any, per `spec_response`.
    pub fn response(&self) -> (r: Option<Response>)
        ensures
            match r {
                Some(resp) => self.spec_response() == Some(resp@),
                None => self.spec_response() is None,
            },
        decreases self,
    {
        match self {
            CargoError::NotFound => Some(error_response(404, "Not Found".to_owned())),
            CargoError::Unauthorized => Some(
                error_response(403, "must be logged in to perform that action".to_owned()),
            ),
            CargoError::Concrete { description, human, cause, .. } => if *human {
                Some(error_response(DEFAULT_ERROR_STATUS, description.clone()))
            } else {
                match cause {
                    Some(c) => c.response(),
                    None => None,
                }
            },
            CargoError::Chained { error, cause } => if error.human() {
                Some(error_response(DEFAULT_ERROR_STATUS, error.description().to_owned()))
            } else {
                cause.response()
            },
            CargoError::Generic { .. } => None,
        }
    }

    /// The display text of this error, per `spec_display`.
    pub fn display(&self) -> (r: String)
        ensures
            r@ == self.spec_display(),
        decreases self,
    {
        match self {
            CargoError::Concrete { description, detail, .. } => match detail {
                Some(d) => {
                    let mut s = description.clone();
                    s.append(" (");
                    s.append(d.as_str());
                    s.append(")");
                    s
                },
                None => description.clone(),
            },
            CargoError::Chained { error, .. } => error.display(),
            CargoError::NotFound => "Not Found".to_owned(),
            CargoError::Unauthorized => "must be logged in to perform that action".to_owned(),
            CargoError::Generic { description } => description.clone(),
        }
    }
}

/// The contextual wrapping that `ChainError` performs: `context` becomes
/// the outer error, `cause` is the preserved original failure.
pub open spec fn chained(context: CargoError, cause: CargoError) -> CargoError {
    CargoError::Chained { error: Box::new(context), cause: Box::new(cause) }
}

/// A freshly built non-human error: never disclosed, no detail, no cause.
pub fn internal(error: &str) -> (r: CargoError)
    ensures
        r.spec_description() == error@,
        r.spec_display() == error@,
        !r.spec_human(),
        r.spec_cause() is None,
        r.spec_response() is None,
{
    CargoError::Concrete {
        description: error.to_owned(),
        detail: None,
        cause: None,
        human: false,
    }
}

/// A freshly built non-human error whose display text appends the detail:
/// `"<description> (<detail>)"`.
pub fn internal_error(error: &str, detail: &str) -> (r: CargoError)
    ensures
        r.spec_description() == error@,
        r.spec_display() == error@ + " ("@ + detail@ + ")"@,
        !r.spec_human(),
        r.spec_cause() is None,
        r.spec_response() is None,
{
    CargoError::Concrete {
        description: error.to_owned(),
        detail: Some(detail.to_owned()),
        cause: None,
        human: false,
    }
}

/// A freshly built human error: its description is disclosed verbatim.
pub fn human(error: &str) -> (r: CargoError)
    ensures
        r.spec_description() == error@,
        r.spec_display() == error@,
        r.spec_human(),
        r.spec_cause() is None,
        r.spec_response() == Some(response_model(DEFAULT_ERROR_STATUS, error@)),
{
    CargoError::Concrete {
        description: error.to_owned(),
        detail: None,
        cause: None,
        human: true,
    }
}

/// The sentinel for a missing resource: fixed 404 response.
pub struct NotFound;

impl NotFound {
    /// The diagnostic description of the sentinel.
    pub fn description(&self) -> (r: &str)
        ensures
            r@ == "not found"@,
    {
        "not found"
    }

    /// The fixed response: 404 with one detail record, unconditionally.
    pub fn response(&self) -> (r: Option<Response>)
        ensures
            r matches Some(resp) && resp@ == response_model(404, "Not Found"@),
    {
        Some(error_response(404, "Not Found".to_owned()))
    }

    /// The display text of the sentinel.
    pub fn display(&self) -> (r: String)
        ensures
            r@ == "Not Found"@,
    {
        "Not Found".to_owned()
    }

    /// The sentinel as an error value, ready to be chained or disclosed.
    pub fn into_error(self) -> (r: CargoError)
        ensures
            r == CargoError::NotFound,
    {
        CargoError::NotFound
    }
}

/// The sentinel for a caller that is not logged in: fixed 403 response.
pub struct Unauthorized;

impl Unauthorized {
    /// The diagnostic description of the sentinel.
    pub fn description(&self) -> (r: &str)
        ensures
            r@ == "unauthorized"@,
    {
        "unauthorized"
    }

    /// The fixed response: 403 with one detail record, unconditionally.
    pub fn response(&self) -> (r: Option<Response>)
        ensures
            r matches Some(resp) && resp@ == response_model(
                403,
                "must be logged in to perform that action"@,
            ),
    {
        Some(error_response(403, "must be logged in to perform that action".to_owned()))
    }

    /// The display text of the sentinel.
    pub fn display(&self) -> (r: String)
        ensures
            r@ == "must be logged in to perform that action"@,
    {
        "must be logged in to perform that action".to_owned()
    }

    /// The sentinel as an error value, ready to be chained or disclosed.
    pub fn into_error(self) -> (r: CargoError)
        ensures
            r == CargoError::Unauthorized,
    {
        CargoError::Unauthorized
    }
}

/// For every non-sentinel error, disclosure follows the one default
/// algorithm: a human error discloses its own description under the
/// default status; a non-human error defers to its cause; an error with
/// no cause discloses nothing.
pub proof fn lemma_default_response_algorithm(e: CargoError)
    requires
        !e.is_sentinel(),
    ensures
        e.spec_response() == (if e.spec_human() {
            Some(response_model(DEFAULT_ERROR_STATUS, e.spec_description()))
        } else {
            match e.spec_cause() {
                Some(c) => c.spec_response(),
                None => None,
            }
        }),
{
}

/// A sentinel's response is fixed, whatever surrounds it: its status and
/// single detail record never depend on the human/cause walk.
pub proof fn lemma_sentinel_response_fixed(e: CargoError)
    requires
        e.is_sentinel(),
    ensures
        e is NotFound ==> e.spec_response() == Some(response_model(404, "Not Found"@)),
        e is Unauthorized ==> e.spec_response() == Some(
            response_model(403, "must be logged in to perform that action"@),
        ),
{
}

/// A non-human contextual wrapper is transparent to disclosure: the chain
/// answers exactly as its cause does. In particular a sentinel used as a
/// cause keeps its fixed response.
pub proof fn lemma_chained_defers_to_cause(context: CargoError, cause: CargoError)
    requires
        !context.spec_human(),
    ensures
        chained(context, cause).spec_response() == cause.spec_response(),
{
}

} // verus!
