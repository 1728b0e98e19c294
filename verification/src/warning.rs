//! What generation reports without stopping: each warning says which item
//! was left out of the output, or which entry of the configuration was
//! replaced.

use vstd::prelude::*;
use vstd::string::StringExecFns;

verus! {

/// A recoverable finding. Each one names the single item that it is about.
#[derive(Debug, Clone, PartialEq, Eq)]
pub enum Warning {
    /// A variant was declared in an enum without a type name.
    MissingEnumName(String),
    /// The integer value of a variant could not be determined.
    MissingValue(String),
    /// A scanned enum type has no entry in the configuration.
    Unconfigured(String),
    /// The declared name of a variant gives no name under its enum's prefix.
    PrefixMismatch(String),
    /// A second configuration entry for a type name replaced the first.
    DuplicateConfig(String),
}

/// A warning, with the name that it carries as a sequence of characters.
pub enum WarningView {
    MissingEnumName(Seq<char>),
    MissingValue(Seq<char>),
    Unconfigured(Seq<char>),
    PrefixMismatch(Seq<char>),
    DuplicateConfig(Seq<char>),
}

impl View for Warning {
    type V = WarningView;

    open spec fn view(&self) -> WarningView {
        match self {
            Warning::MissingEnumName(n) => WarningView::MissingEnumName(n@),
            Warning::MissingValue(n) => WarningView::MissingValue(n@),
            Warning::Unconfigured(n) => WarningView::Unconfigured(n@),
            Warning::PrefixMismatch(n) => WarningView::PrefixMismatch(n@),
            Warning::DuplicateConfig(n) => WarningView::DuplicateConfig(n@),
        }
    }
}

/// The views of a list of warnings, in order.
pub open spec fn warning_views(ws: Seq<Warning>) -> Seq<WarningView> {
    ws.map_values(|w: Warning| w@)
}

impl WarningView {
    /// The name of the item that the warning is about.
    pub open spec fn subject(self) -> Seq<char> {
        match self {
            WarningView::MissingEnumName(n) => n,
            WarningView::MissingValue(n) => n,
            WarningView::Unconfigured(n) => n,
            WarningView::PrefixMismatch(n) => n,
            WarningView::DuplicateConfig(n) => n,
        }
    }

    /// The words that come before the subject in the warning's text.
    pub open spec fn lead(self) -> Seq<char> {
        match self {
            WarningView::MissingEnumName(_) => "No enum name found for variant: "@,
            WarningView::MissingValue(_) => "No value found for variant: "@,
            WarningView::Unconfigured(_) => "no configuration found for enum: "@,
            WarningView::PrefixMismatch(_) => "Failed to strip prefix from enum: "@,
            WarningView::DuplicateConfig(_) => "Duplicate enum config found: "@,
        }
    }

    /// The text of the warning: its lead, then its subject.
    pub open spec fn text(self) -> Seq<char> {
        self.lead() + self.subject()
    }
}

impl Warning {
    /// The text to show for this warning.
    pub fn message(&self) -> (r: String)
        ensures
            r@ == self@.text(),
    {
        match self {
            Warning::MissingEnumName(n) => String::from_str("No enum name found for variant: ").concat(
                n.as_str(),
            ),
            Warning::MissingValue(n) => String::from_str("No value found for variant: ").concat(
                n.as_str(),
            ),
            Warning::Unconfigured(n) => String::from_str("no configuration found for enum: ").concat(
                n.as_str(),
            ),
            Warning::PrefixMismatch(n) => String::from_str(
                "Failed to strip prefix from enum: ",
            ).concat(n.as_str()),
            Warning::DuplicateConfig(n) => String::from_str("Duplicate enum config found: ").concat(
                n.as_str(),
            ),
        }
    }
}

} // verus!
