//! Bridging to and from a minimal, generic error interface.
//!
//! Inbound, a foreign error that offers nothing but a description is
//! adopted into the full capability with no cause and `human` false.
//! Outbound, an error is wrapped so that its display renders the entire
//! cause chain as multi-line diagnostic text: the top description, then
//! one `"\nCaused by: <description>"` line per cause link until the chain
//! is exhausted. Nothing of the history is lost to the logs.

use crate::errors::CargoError;
use vstd::prelude::*;
use vstd::string::StringExecFns;

verus! {

impl CargoError {
    /// The `"\nCaused by: ..."` lines that follow this error's own
    /// display text in the full-chain rendering: one line per cause link,
    /// outermost first, each showing that cause's display text.
    pub open spec fn spec_chain_rest(self) -> Seq<char>
        decreases self,
    {
        match self {
            CargoError::Concrete { cause: Some(c), .. } => "\nCaused by: "@ + c.spec_display()
                + c.spec_chain_rest(),
            CargoError::Chained { cause, .. } => "\nCaused by: "@ + cause.spec_display()
                + cause.spec_chain_rest(),
            _ => Seq::empty(),
        }
    }

    /// The full-chain rendering: this error's display text, then one
    /// `"\nCaused by: ..."` line for each cause link.
    pub open spec fn spec_chain_display(self) -> Seq<char> {
        self.spec_display() + self.spec_chain_rest()
    }
}

/// The `"\nCaused by: ..."` lines for everything below `e`.
fn chain_rest(e: &CargoError) -> (r: String)
    ensures
        r@ == e.spec_chain_rest(),
    decreases e,
{
    match e {
        CargoError::Concrete { cause: Some(c), .. } => {
            let mut s = "\nCaused by: ".to_owned();
            s.append(c.display().as_str());
            s.append(chain_rest(c).as_str());
            s
        },
        CargoError::Chained { cause, .. } => {
            let mut s = "\nCaused by: ".to_owned();
            s.append(cause.display().as_str());
            s.append(chain_rest(cause).as_str());
            s
        },
        _ => String::new(),
    }
}

/// The rendering rule unfolded over the cause relation: below any error
/// there is one `"\nCaused by: ..."` line per cause link, each carrying
/// that cause's display text, until the chain runs out.
pub proof fn lemma_chain_rest_unfolds(e: CargoError)
    ensures
        e.spec_chain_rest() == (match e.spec_cause() {
            Some(c) => "\nCaused by: "@ + c.spec_display() + c.spec_chain_rest(),
            None => Seq::<char>::empty(),
        }),
{
}

/// An error adapted to the generic interface: it still answers with the
/// wrapped error's description, and its display renders the full chain.
pub struct LegacyError {
    pub inner: CargoError,
}

/// Wraps an error for code that knows only the minimal, generic error
/// interface, keeping the whole cause chain available for rendering.
pub fn std_error(e: CargoError) -> (r: LegacyError)
    ensures
        r.inner == e,
{
    LegacyError { inner: e }
}

impl LegacyError {
    /// The wrapped error's own description.
    pub fn description(&self) -> (r: &str)
        ensures
            r@ == self.inner.spec_description(),
    {
        self.inner.description()
    }

    /// The full-chain diagnostic text: the wrapped error's display text,
    /// then one `"\nCaused by: ..."` line per cause link.
    pub fn display(&self) -> (r: String)
        ensures
            r@ == self.inner.spec_chain_display(),
    {
        let mut s = self.inner.display();
        s.append(chain_rest(&self.inner).as_str());
        s
    }
}

/// Adopts a foreign error that offers nothing but a description: the
/// result delegates its description, has no cause, and is never human.
pub fn from_description(description: String) -> (r: CargoError)
    ensures
        r.spec_description() == description@,
        r.spec_display() == description@,
        !r.spec_human(),
        r.spec_cause() is None,
        r.spec_response() is None,
{
    CargoError::Generic { description }
}

} // verus!
