//! The `sprite_bundle` attribute: one field of type `SpriteBundle`, built
//! either from an asset path or from the tileset of an entity's tile.

use crate::error::ExpandError;
use crate::initializer::{outcome_view, Initializer, InitializerView};
use crate::literal::{lemma_quoted_is_injective, quoted, string_literal};
use crate::parse::{parse_string_literal, string_literal_value};
use crate::syntax::{Attribute, AttributeView, Meta, MetaView, Type, TypeView};
use vstd::prelude::*;
use vstd::string::StringExecFns;

verus! {

/// The name that the field's type must end in.
pub const SPRITE_BUNDLE_TYPE_NAME: &'static str = "SpriteBundle";

/// The bundle that loads an asset, up to the asset's literal.
pub const ASSET_BUNDLE_HEAD: &'static str =
    "bevy::prelude::SpriteBundle { material: materials.add(asset_server.load(";

/// The bundle that loads an asset, after the asset's literal.
pub const ASSET_BUNDLE_TAIL: &'static str = ").into()), ..Default::default() }";

/// The bundle whose material comes from the tileset of the entity's tile.
pub const TILESET_BUNDLE: &'static str =
    "bevy::prelude::SpriteBundle { material: materials.add(tileset_map.get(&entity_instance.tile.clone().expect(\"#[sprite_bundle] attribute expected the EntityInstance to have a tile defined.\").tileset_uid).expect(\"EntityInstance's tileset should be in the tileset_map\").clone().into()), ..Default::default() }";

/// Whether a type's last path segment is literally `SpriteBundle`. Only the
/// name is compared: an unrelated type of that name passes.
pub open spec fn names_sprite_bundle(ty: TypeView) -> bool {
    ty.last_segment == Some(SPRITE_BUNDLE_TYPE_NAME@)
}

/// A bundle whose material is loaded from the asset that `literal` names.
pub open spec fn asset_bundle(literal: Seq<char>) -> Seq<char> {
    ASSET_BUNDLE_HEAD@ + literal + ASSET_BUNDLE_TAIL@
}

/// A bundle whose material is looked up in `tileset_map` under the tileset id
/// of the entity's tile. The emitted code aborts with a message of its own
/// where the entity has no tile, and where the map lacks the id.
pub open spec fn tileset_bundle() -> Seq<char> {
    TILESET_BUNDLE@
}

/// What a list form yields, given the value of its string literal if it is
/// one.
pub open spec fn asset_outcome(field_name: Seq<char>, asset: Option<Seq<char>>) -> Result<
    InitializerView,
    ExpandError,
> {
    match asset {
        Some(path) => Ok(InitializerView { field: field_name, value: asset_bundle(quoted(path)) }),
        None => Err(ExpandError::ExpectedAssetPath),
    }
}

/// What the attribute yields on a field of any type. The type is checked
/// first: on a wrong type the attribute's own shape is not looked at.
pub open spec fn sprite_bundle_outcome(
    attribute: AttributeView,
    field_name: Seq<char>,
    field_type: TypeView,
) -> Result<InitializerView, ExpandError> {
    if !names_sprite_bundle(field_type) {
        Err(ExpandError::WrongFieldType)
    } else {
        match attribute.meta {
            MetaView::List { tokens } => asset_outcome(field_name, string_literal_value(tokens)),
            MetaView::Path => Ok(InitializerView { field: field_name, value: tileset_bundle() }),
            MetaView::NameValue { .. } => Err(ExpandError::SpriteBundleForm),
        }
    }
}

/// Tells whether the type's last path segment is `SpriteBundle`.
pub fn is_sprite_bundle(field_type: &Type) -> (ok: bool)
    ensures
        ok == names_sprite_bundle(field_type@),
{
    match &field_type.last_segment {
        Some(name) => {
            let expected = String::from_str(SPRITE_BUNDLE_TYPE_NAME);
            *name == expected
        },
        None => false,
    }
}

/// Builds the initializer of the list form from the value of its string
/// literal, and refuses a list that is no string literal.
pub fn asset_initializer(field_name: &str, asset: Option<String>) -> (outcome: Result<
    Initializer,
    ExpandError,
>)
    ensures
        outcome_view(outcome) == asset_outcome(
            field_name@,
            match asset {
                Some(path) => Some(path@),
                None => None,
            },
        ),
{
    match asset {
        Some(path) => {
            let literal = string_literal(path.as_str());
            let mut value = String::from_str(ASSET_BUNDLE_HEAD);
            value.append(literal.as_str());
            value.append(ASSET_BUNDLE_TAIL);
            Ok(Initializer { field: String::from_str(field_name), value })
        },
        None => Err(ExpandError::ExpectedAssetPath),
    }
}

/// Builds the initializer of the bare form.
pub fn tileset_initializer(field_name: &str) -> (initializer: Initializer)
    ensures
        initializer@ == (InitializerView { field: field_name@, value: tileset_bundle() }),
{
    Initializer { field: String::from_str(field_name), value: String::from_str(TILESET_BUNDLE) }
}

/// Expands a `sprite_bundle` attribute into the initializer of its field.
///
/// The field's type must be named `SpriteBundle`. With one string literal as
/// its argument the attribute loads that asset; bare, it looks the material up
/// by the tileset of the entity's tile.
pub fn expand_sprite_bundle_attribute(
    attribute: &Attribute,
    field_name: &str,
    field_type: &Type,
) -> (outcome: Result<Initializer, ExpandError>)
    ensures
        outcome_view(outcome) == sprite_bundle_outcome(attribute@, field_name@, field_type@),
{
    if !is_sprite_bundle(field_type) {
        return Err(ExpandError::WrongFieldType);
    }
    match &attribute.meta {
        Meta::List { tokens } => {
            let asset = parse_string_literal(tokens.as_str());
            asset_initializer(field_name, asset)
        },
        Meta::Path => Ok(tileset_initializer(field_name)),
        Meta::NameValue { .. } => Err(ExpandError::SpriteBundleForm),
    }
}

/// On a field of the wrong type the attribute is refused whatever its own
/// shape.
pub proof fn lemma_wrong_type_is_refused(
    attribute: AttributeView,
    field_name: Seq<char>,
    field_type: TypeView,
)
    requires
        !names_sprite_bundle(field_type),
    ensures
        sprite_bundle_outcome(attribute, field_name, field_type) == Err::<
            InitializerView,
            ExpandError,
        >(ExpandError::WrongFieldType),
{
}

/// The emitted bundle loads the given asset and no other: two paths that
/// yield the same initializer are the same path.
pub proof fn lemma_asset_path_is_kept(field_name: Seq<char>, a: Seq<char>, b: Seq<char>)
    requires
        asset_outcome(field_name, Some(a)) == asset_outcome(field_name, Some(b)),
    ensures
        a == b,
{
    let before = ASSET_BUNDLE_HEAD@;
    let after = ASSET_BUNDLE_TAIL@;
    let left = asset_bundle(quoted(a));
    let right = asset_bundle(quoted(b));
    assert(left == right);
    assert(left.len() == before.len() + quoted(a).len() + after.len());
    assert(right.len() == before.len() + quoted(b).len() + after.len());
    let start = before.len() as int;
    assert(quoted(a) =~= left.subrange(start, start + quoted(a).len()));
    assert(quoted(b) =~= right.subrange(start, start + quoted(b).len()));
    lemma_quoted_is_injective(a, b);
}

} // verus!
