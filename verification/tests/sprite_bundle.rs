use ldtk_codegen::attributes::{
    asset_initializer, expand_sprite_bundle_attribute, is_sprite_bundle, tileset_initializer,
};
use ldtk_codegen::error::ExpandError;
use ldtk_codegen::initializer::Initializer;
use ldtk_codegen::syntax::{Attribute, Meta, Type};

fn sprite_bundle_type() -> Type {
    Type {
        tokens: "bevy::prelude::SpriteBundle".to_string(),
        last_segment: Some("SpriteBundle".to_string()),
    }
}

fn sprite_attribute(meta: Meta) -> Attribute {
    Attribute { name: "sprite_bundle".to_string(), meta }
}

fn sprite_list(tokens: &str) -> Attribute {
    sprite_attribute(Meta::List { tokens: tokens.to_string() })
}

fn lexed(text: &str) -> String {
    text.parse::<proc_macro2::TokenStream>().unwrap().to_string()
}

#[test]
fn asset_path_is_loaded() {
    let outcome =
        expand_sprite_bundle_attribute(&sprite_list("\"path/to/asset.png\""), "sprite", &sprite_bundle_type());
    assert_eq!(
        outcome,
        Ok(Initializer {
            field: "sprite".to_string(),
            value: "bevy::prelude::SpriteBundle { material: materials.add(asset_server.load(\"path/to/asset.png\").into()), ..Default::default() }".to_string(),
        })
    );
}

#[test]
fn asset_initializer_renders_as_a_field() {
    let initializer = expand_sprite_bundle_attribute(
        &sprite_list("\"path/to/asset.png\""),
        "sprite",
        &sprite_bundle_type(),
    )
    .unwrap();
    assert_eq!(
        initializer.render(),
        "sprite: bevy::prelude::SpriteBundle { material: materials.add(asset_server.load(\"path/to/asset.png\").into()), ..Default::default() },"
    );
}

#[test]
fn asset_tokens_are_those_of_the_template() {
    let initializer = expand_sprite_bundle_attribute(
        &sprite_list("\"player.png\""),
        "sprite_bundle",
        &sprite_bundle_type(),
    )
    .unwrap();
    let expected = "sprite_bundle: bevy::prelude::SpriteBundle {
            material: materials.add(asset_server.load(\"player.png\").into()),
            ..Default::default()
        },";
    assert_eq!(lexed(&initializer.render()), lexed(expected));
}

#[test]
fn raw_literal_gives_its_value() {
    let initializer =
        expand_sprite_bundle_attribute(&sprite_list("r\"a\\b.png\""), "sprite", &sprite_bundle_type())
            .unwrap();
    assert_eq!(
        initializer.value,
        "bevy::prelude::SpriteBundle { material: materials.add(asset_server.load(\"a\\\\b.png\").into()), ..Default::default() }"
    );
}

#[test]
fn escaped_literal_is_resolved_and_written_again() {
    let initializer = expand_sprite_bundle_attribute(
        &sprite_list("\"a\\u{e9}\\n\\\"b\\\"\""),
        "sprite",
        &sprite_bundle_type(),
    )
    .unwrap();
    assert_eq!(
        initializer.value,
        "bevy::prelude::SpriteBundle { material: materials.add(asset_server.load(\"a\\u{0000e9}\\u{00000a}\\\"b\\\"\").into()), ..Default::default() }"
    );
}

#[test]
fn bare_marker_looks_up_the_tileset() {
    let outcome =
        expand_sprite_bundle_attribute(&sprite_attribute(Meta::Path), "sprite", &sprite_bundle_type());
    let initializer = outcome.unwrap();
    assert_eq!(initializer.field, "sprite");
    assert_eq!(
        initializer.value,
        "bevy::prelude::SpriteBundle { material: materials.add(tileset_map.get(&entity_instance.tile.clone().expect(\"#[sprite_bundle] attribute expected the EntityInstance to have a tile defined.\").tileset_uid).expect(\"EntityInstance's tileset should be in the tileset_map\").clone().into()), ..Default::default() }"
    );
    assert_eq!(initializer, tileset_initializer("sprite"));
}

#[test]
fn bare_marker_tokens_are_those_of_the_template() {
    let initializer = tileset_initializer("sprite_bundle");
    let expected = "sprite_bundle: bevy::prelude::SpriteBundle {
                    material: materials.add(
                            tileset_map.get(&entity_instance
                                .tile.clone()
                                .expect(\"#[sprite_bundle] attribute expected the EntityInstance to have a tile defined.\")
                                .tileset_uid
                            ).expect(\"EntityInstance's tileset should be in the tileset_map\").clone().into()
                        ),
                    ..Default::default()
                },";
    assert_eq!(lexed(&initializer.render()), lexed(expected));
}

#[test]
fn bare_marker_aborts_without_a_tile() {
    let initializer = tileset_initializer("sprite");
    let tile = initializer.value.find(".tile.clone().expect(").unwrap();
    let key = initializer.value.find(".tileset_uid").unwrap();
    let lookup = initializer.value.find("tileset_map.get(").unwrap();
    assert!(lookup < tile && tile < key);
}

#[test]
fn wrong_type_is_refused_whatever_the_attribute() {
    let wrong = Type { tokens: "Sprite".to_string(), last_segment: Some("Sprite".to_string()) };
    for attribute in [
        sprite_list("\"path/to/asset.png\""),
        sprite_list("42"),
        sprite_attribute(Meta::Path),
        sprite_attribute(Meta::NameValue { value: "\"x\"".to_string() }),
    ] {
        assert_eq!(
            expand_sprite_bundle_attribute(&attribute, "sprite", &wrong),
            Err(ExpandError::WrongFieldType)
        );
    }
}

#[test]
fn type_that_is_no_path_is_refused() {
    let reference = Type { tokens: "&'static SpriteBundle".to_string(), last_segment: None };
    assert!(!is_sprite_bundle(&reference));
    assert_eq!(
        expand_sprite_bundle_attribute(&sprite_attribute(Meta::Path), "sprite", &reference),
        Err(ExpandError::WrongFieldType)
    );
}

#[test]
fn only_the_last_segment_is_compared() {
    let other = Type {
        tokens: "my_game::SpriteBundle".to_string(),
        last_segment: Some("SpriteBundle".to_string()),
    };
    assert!(is_sprite_bundle(&other));
    let lower = Type { tokens: "spritebundle".to_string(), last_segment: Some("spritebundle".to_string()) };
    assert!(!is_sprite_bundle(&lower));
}

#[test]
fn list_without_a_string_literal_is_refused() {
    for tokens in ["42", "asset", "", "b\"bytes\"", "\"a\" + \"b\""] {
        assert_eq!(
            expand_sprite_bundle_attribute(&sprite_list(tokens), "sprite", &sprite_bundle_type()),
            Err(ExpandError::ExpectedAssetPath),
            "{}",
            tokens
        );
    }
}

#[test]
fn list_of_several_arguments_is_refused() {
    assert_eq!(
        expand_sprite_bundle_attribute(&sprite_list("\"a.png\", \"b.png\""), "sprite", &sprite_bundle_type()),
        Err(ExpandError::ExpectedAssetPath)
    );
}

#[test]
fn name_value_form_is_refused() {
    assert_eq!(
        expand_sprite_bundle_attribute(
            &sprite_attribute(Meta::NameValue { value: "\"a.png\"".to_string() }),
            "sprite",
            &sprite_bundle_type()
        ),
        Err(ExpandError::SpriteBundleForm)
    );
}

#[test]
fn asset_initializer_takes_the_value() {
    assert_eq!(asset_initializer("sprite", None), Err(ExpandError::ExpectedAssetPath));
    assert_eq!(
        asset_initializer("sprite", Some("a.png".to_string())),
        Ok(Initializer {
            field: "sprite".to_string(),
            value: "bevy::prelude::SpriteBundle { material: materials.add(asset_server.load(\"a.png\").into()), ..Default::default() }".to_string(),
        })
    );
}

#[test]
fn sprite_bundle_messages() {
    assert_eq!(
        ExpandError::WrongFieldType.message(),
        "#[sprite_bundle...] attribute should apply to a field of type bevy::prelude::SpriteBundle"
    );
    assert_eq!(
        ExpandError::ExpectedAssetPath.message(),
        "Expected asset path as the first argument of #[sprite_bundle(...)]"
    );
    assert_eq!(
        ExpandError::SpriteBundleForm.message(),
        "#[sprite_bundle...] attribute should take the form #[sprite_bundle(\"asset/path.png\")] or #[sprite_bundle]"
    );
}
