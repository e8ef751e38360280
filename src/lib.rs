use vstd::prelude::*;

pub mod api;
pub mod assertion;
pub mod rule;

pub use api::{rocket, ClientFailure, Handler, LookupError, Method, Response, Route, Router};
pub use assertion::{printer_columns, PrinterColumn, NetworkAssertionSpec, NetworkAssertionStatus, NetworkAssertionStatusCreation};
pub use rule::{
    ConfigMap, Context, ExpectedResult, NetworkAssertionRule, RuleType, RuleValidation, Violation,
};

verus! {

/// Body of the greeting route.
pub fn index() -> (r: String)
    ensures
        r@ == "Hello"@,
{
    String::from_str("Hello")
}

} // verus!
