//! The outcome aggregator: a closed sum over every convention's verify
//! outcome, so a driver holding a heterogeneous list of outcomes can report
//! each uniformly without knowing which convention produced it. Adding a
//! convention means adding one tag here and nothing else.

use vstd::prelude::*;
use crate::datapack_advancement::Verify;
use crate::diagnostic::{Diagnostic, Files};

verus! {

/// One convention's verify outcome, tagged with its convention.
#[derive(Debug, Clone, PartialEq)]
pub enum VerifyConvention {
    DatapackAdvancement(Verify),
}

impl VerifyConvention {
    /// Whether the wrapped outcome's diagnostic mapping may be asked for.
    pub open spec fn locatable(self) -> bool {
        match self {
            VerifyConvention::DatapackAdvancement(inner) => inner.locatable(),
        }
    }

    /// Renders the wrapped outcome as an optional diagnostic, exactly as
    /// the outcome's own report operation would.
    pub fn report(&self) -> (r: Option<(Files, Diagnostic)>)
        requires
            self.locatable(),
        ensures
            match self {
                VerifyConvention::DatapackAdvancement(inner) => inner.report_ensures(r),
            },
    {
        match self {
            Self::DatapackAdvancement(inner) => inner.report(),
        }
    }
}

impl From<Verify> for VerifyConvention {
    /// Tags a datapack advancement outcome.
    fn from(item: Verify) -> (r: VerifyConvention) {
        VerifyConvention::DatapackAdvancement(item)
    }
}

impl vstd::std_specs::convert::FromSpecImpl<Verify> for VerifyConvention {
    open spec fn obeys_from_spec() -> bool {
        true
    }

    open spec fn from_spec(item: Verify) -> VerifyConvention {
        VerifyConvention::DatapackAdvancement(item)
    }
}

} // verus!
