//! Why an expansion is refused. Each reason has one fixed message that names
//! the form that was expected.

use vstd::prelude::*;
use vstd::string::StringExecFns;

verus! {

pub const WRONG_FIELD_TYPE: &'static str =
    "#[sprite_bundle...] attribute should apply to a field of type bevy::prelude::SpriteBundle";

pub const EXPECTED_ASSET_PATH: &'static str =
    "Expected asset path as the first argument of #[sprite_bundle(...)]";

pub const SPRITE_BUNDLE_FORM: &'static str =
    "#[sprite_bundle...] attribute should take the form #[sprite_bundle(\"asset/path.png\")] or #[sprite_bundle]";

pub const LDTK_INT_CELL_FORM: &'static str =
    "#[ldtk_int_cell] attribute should take the form #[ldtk_int_cell]";

pub const FROM_INT_GRID_CELL_FORM: &'static str =
    "#[from_int_grid_cell] attribute should take the form #[from_int_grid_cell]";

pub const WITH_FORM: &'static str =
    "#[with...] attribute should take the form #[with(function_name) or #[with(|_| {..})]]";

pub const DEFAULT_FORM: &'static str = "#[default] attribute should take the form #[default]";

pub const NOT_NAMED_STRUCT: &'static str = "Expected a struct with named fields.";

/// What is wrong with one attribute, or with the field that carries it.
#[derive(Clone, Copy, Debug, PartialEq, Eq, Structural)]
pub enum ExpandError {
    /// `sprite_bundle` stands on a field whose type is not named `SpriteBundle`.
    WrongFieldType,
    /// `sprite_bundle(..)` holds something other than one string literal.
    ExpectedAssetPath,
    /// `sprite_bundle` is neither a list nor a bare marker.
    SpriteBundleForm,
    /// `ldtk_int_cell` has arguments.
    LdtkIntCellForm,
    /// `from_int_grid_cell` has arguments.
    FromIntGridCellForm,
    /// `with` holds neither a path nor a closure of one parameter.
    WithForm,
    /// `default` has arguments.
    DefaultForm,
}

impl ExpandError {
    /// The message of each reason.
    pub open spec fn message_text(self) -> Seq<char> {
        match self {
            ExpandError::WrongFieldType => WRONG_FIELD_TYPE@,
            ExpandError::ExpectedAssetPath => EXPECTED_ASSET_PATH@,
            ExpandError::SpriteBundleForm => SPRITE_BUNDLE_FORM@,
            ExpandError::LdtkIntCellForm => LDTK_INT_CELL_FORM@,
            ExpandError::FromIntGridCellForm => FROM_INT_GRID_CELL_FORM@,
            ExpandError::WithForm => WITH_FORM@,
            ExpandError::DefaultForm => DEFAULT_FORM@,
        }
    }

    pub fn message(&self) -> (text: String)
        ensures
            text@ == self.message_text(),
    {
        String::from_str(
            match self {
                ExpandError::WrongFieldType => WRONG_FIELD_TYPE,
                ExpandError::ExpectedAssetPath => EXPECTED_ASSET_PATH,
                ExpandError::SpriteBundleForm => SPRITE_BUNDLE_FORM,
                ExpandError::LdtkIntCellForm => LDTK_INT_CELL_FORM,
                ExpandError::FromIntGridCellForm => FROM_INT_GRID_CELL_FORM,
                ExpandError::WithForm => WITH_FORM,
                ExpandError::DefaultForm => DEFAULT_FORM,
            },
        )
    }
}

/// Why a derive is refused.
#[derive(Clone, Copy, Debug, PartialEq, Eq, Structural)]
pub enum DeriveError {
    /// The item is not a struct with named fields.
    NotNamedStruct,
    /// The attribute at index `attribute` of the field at index `field` is
    /// malformed.
    Attribute { field: usize, attribute: usize, error: ExpandError },
}

impl DeriveError {
    /// The message of the reason; for an attribute, the attribute's own.
    pub open spec fn message_text(self) -> Seq<char> {
        match self {
            DeriveError::NotNamedStruct => NOT_NAMED_STRUCT@,
            DeriveError::Attribute { error, .. } => error.message_text(),
        }
    }

    pub fn message(&self) -> (text: String)
        ensures
            text@ == self.message_text(),
    {
        match self {
            DeriveError::NotNamedStruct => String::from_str(NOT_NAMED_STRUCT),
            DeriveError::Attribute { error, .. } => error.message(),
        }
    }
}

} // verus!
