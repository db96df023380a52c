//! One field of a generated struct literal: the field's name and the
//! expression that builds its value.

use crate::error::ExpandError;
use vstd::prelude::*;
use vstd::string::StringExecFns;

verus! {

/// A field's name and the expression that builds its value, both as source
/// text.
#[derive(Debug, PartialEq, Eq)]
pub struct Initializer {
    pub field: String,
    pub value: String,
}

pub struct InitializerView {
    pub field: Seq<char>,
    pub value: Seq<char>,
}

impl InitializerView {
    /// The initializer as it stands inside a struct literal: `field: value,`.
    pub open spec fn text(self) -> Seq<char> {
        self.field + ": "@ + self.value + ","@
    }
}

impl View for Initializer {
    type V = InitializerView;

    open spec fn view(&self) -> InitializerView {
        InitializerView { field: self.field@, value: self.value@ }
    }
}

/// The outcome of expanding one attribute, with the initializer as its view.
pub open spec fn outcome_view(outcome: Result<Initializer, ExpandError>) -> Result<
    InitializerView,
    ExpandError,
> {
    match outcome {
        Ok(initializer) => Ok(initializer@),
        Err(error) => Err(error),
    }
}

impl Initializer {
    /// Writes the initializer as `field: value,`.
    pub fn render(&self) -> (text: String)
        ensures
            text@ == self@.text(),
    {
        let mut text = self.field.clone();
        text.append(": ");
        text.append(self.value.as_str());
        text.append(",");
        text
    }
}

} // verus!
