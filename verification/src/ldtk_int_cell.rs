//! The int-cell derive: an implementation of `LdtkIntCell` whose one method
//! builds the struct field by field from a grid cell and its layer.
//!
//! Each field is built as its deciding attribute says (see
//! [`crate::selection`]). A field without a known attribute gets no
//! initializer of its own: the struct literal then ends in a spread of the
//! type's default value, which fills every field that was left out.

use crate::error::{DeriveError, ExpandError};
use crate::initializer::{outcome_view, Initializer, InitializerView};
use crate::parse::{closure_parameters, is_path, parse_closure, parse_path};
use crate::selection::{select_attribute, selected, AttributeKind};
use crate::syntax::{
    field_views, Attribute, AttributeView, Data, DataView, DeriveInput, DeriveInputView, Field,
    FieldView, Generics, GenericsView, Meta, MetaView, Type, TypeView,
};
use vstd::prelude::*;
use vstd::string::StringExecFns;

verus! {

/// What follows the field's type where the type builds the value itself.
pub const DELEGATED_TAIL: &'static str =
    " as bevy_ecs_ldtk::prelude::LdtkIntCell>::bundle_int_cell(int_grid_cell, layer_instance)";

/// What follows the field's type where the type converts the cell.
pub const CONVERTED_TAIL: &'static str =
    " as From<bevy_ecs_ldtk::prelude::IntGridCell>>::from(int_grid_cell)";

/// The call of a path with the cell.
pub const PATH_CALL_TAIL: &'static str = "(int_grid_cell)";

/// The call of a closure in brackets with the cell.
pub const CLOSURE_CALL_TAIL: &'static str = ")(int_grid_cell)";

/// The type's default value.
pub const DEFAULT_VALUE: &'static str = "Default::default()";

/// What stands between the generic parameters and the struct's name.
pub const TRAIT_FOR: &'static str = " bevy_ecs_ldtk::prelude::LdtkIntCell for ";

/// The opening of the implementation's body.
pub const BODY_OPEN: &'static str = " {\n";

/// The opening of the method, down to the opening of the struct literal.
pub const METHOD_HEAD: &'static str =
    "    fn bundle_int_cell(\n        int_grid_cell: bevy_ecs_ldtk::prelude::IntGridCell,\n        layer_instance: &bevy_ecs_ldtk::prelude::LayerInstance,\n    ) -> Self {\n        Self {\n";

/// The indentation of a line of the struct literal.
pub const INDENT: &'static str = "            ";

/// The spread that fills the fields left out.
pub const DEFAULT_SPREAD: &'static str = "..<Self as std::default::Default>::default()";

/// The closing of the struct literal, the method and the implementation.
pub const IMPL_TAIL: &'static str = "        }\n    }\n}\n";

/// The field's own type builds the value, from the cell and the layer.
pub open spec fn delegated_value(ty: Seq<char>) -> Seq<char> {
    "<"@ + ty + DELEGATED_TAIL@
}

/// The field's type converts the cell into the value.
pub open spec fn converted_value(ty: Seq<char>) -> Seq<char> {
    "<"@ + ty + CONVERTED_TAIL@
}

/// The function at `path` is called with the cell.
pub open spec fn path_call(path: Seq<char>) -> Seq<char> {
    path + PATH_CALL_TAIL@
}

/// The closure is called in place with the cell.
pub open spec fn closure_call(closure: Seq<char>) -> Seq<char> {
    "("@ + closure + CLOSURE_CALL_TAIL@
}

/// The type's default value.
pub open spec fn default_value() -> Seq<char> {
    DEFAULT_VALUE@
}

/// What a bare attribute yields, and that any other shape is refused with the
/// error of its kind.
pub open spec fn bare_outcome(
    meta: MetaView,
    field_name: Seq<char>,
    value: Seq<char>,
    error: ExpandError,
) -> Result<InitializerView, ExpandError> {
    match meta {
        MetaView::Path => Ok(InitializerView { field: field_name, value }),
        _ => Err(error),
    }
}

pub open spec fn ldtk_int_cell_outcome(
    attribute: AttributeView,
    field_name: Seq<char>,
    field_type: TypeView,
) -> Result<InitializerView, ExpandError> {
    bare_outcome(
        attribute.meta,
        field_name,
        delegated_value(field_type.tokens),
        ExpandError::LdtkIntCellForm,
    )
}

pub open spec fn from_int_grid_cell_outcome(
    attribute: AttributeView,
    field_name: Seq<char>,
    field_type: TypeView,
) -> Result<InitializerView, ExpandError> {
    bare_outcome(
        attribute.meta,
        field_name,
        converted_value(field_type.tokens),
        ExpandError::FromIntGridCellForm,
    )
}

pub open spec fn default_outcome(attribute: AttributeView, field_name: Seq<char>) -> Result<
    InitializerView,
    ExpandError,
> {
    bare_outcome(attribute.meta, field_name, default_value(), ExpandError::DefaultForm)
}

/// What the argument of `with` yields, given what the parser says of it. A
/// path is tried first; a closure counts only with exactly one parameter.
pub open spec fn callable_outcome(
    field_name: Seq<char>,
    tokens: Seq<char>,
    path: bool,
    parameters: Option<usize>,
) -> Result<InitializerView, ExpandError> {
    if path {
        Ok(InitializerView { field: field_name, value: path_call(tokens) })
    } else if parameters == Some(1usize) {
        Ok(InitializerView { field: field_name, value: closure_call(tokens) })
    } else {
        Err(ExpandError::WithForm)
    }
}

pub open spec fn with_outcome(attribute: AttributeView, field_name: Seq<char>) -> Result<
    InitializerView,
    ExpandError,
> {
    match attribute.meta {
        MetaView::List { tokens } => callable_outcome(
            field_name,
            tokens,
            is_path(tokens),
            closure_parameters(tokens),
        ),
        _ => Err(ExpandError::WithForm),
    }
}

/// What an attribute of a given kind yields on a field.
pub open spec fn attribute_outcome(
    kind: AttributeKind,
    attribute: AttributeView,
    field_name: Seq<char>,
    field_type: TypeView,
) -> Result<InitializerView, ExpandError> {
    match kind {
        AttributeKind::LdtkIntCell => ldtk_int_cell_outcome(attribute, field_name, field_type),
        AttributeKind::FromIntGridCell => from_int_grid_cell_outcome(
            attribute,
            field_name,
            field_type,
        ),
        AttributeKind::With => with_outcome(attribute, field_name),
        AttributeKind::UseDefault => default_outcome(attribute, field_name),
    }
}

/// What a field yields: nothing where no attribute of it is known, else the
/// outcome of its deciding attribute, with that attribute's index in case of
/// an error.
pub open spec fn field_outcome(field: FieldView) -> Option<
    Result<InitializerView, (int, ExpandError)>,
> {
    match selected(field.attrs) {
        None => None,
        Some((kind, index)) => Some(
            match attribute_outcome(kind, field.attrs[index], field.name, field.ty) {
                Ok(initializer) => Ok(initializer),
                Err(error) => Err((index, error)),
            },
        ),
    }
}

/// The initializers of a struct's fields, in declaration order; or the error
/// of the first field whose deciding attribute is malformed.
pub open spec fn initializers(fields: Seq<FieldView>) -> Result<Seq<InitializerView>, DeriveError>
    decreases fields.len(),
{
    if fields.len() == 0 {
        Ok(Seq::empty())
    } else {
        match initializers(fields.drop_last()) {
            Err(error) => Err(error),
            Ok(earlier) => match field_outcome(fields.last()) {
                None => Ok(earlier),
                Some(Ok(initializer)) => Ok(earlier.push(initializer)),
                Some(Err((index, error))) => Err(
                    DeriveError::Attribute {
                        field: (fields.len() - 1) as usize,
                        attribute: index as usize,
                        error,
                    },
                ),
            },
        }
    }
}

/// The views of a list of initializers, in the same order.
pub open spec fn initializer_views(list: Seq<Initializer>) -> Seq<InitializerView> {
    list.map_values(|i: Initializer| i@)
}

/// A piece of the first line with a space in front; nothing for a piece that
/// is empty.
pub open spec fn spaced(piece: Seq<char>) -> Seq<char> {
    if piece.len() == 0 {
        piece
    } else {
        " "@ + piece
    }
}

/// The first line of the implementation. The three pieces of the generics
/// and the struct's name stand in it as they were given.
pub open spec fn impl_line(ident: Seq<char>, generics: GenericsView) -> Seq<char> {
    "impl"@ + spaced(generics.impl_generics) + TRAIT_FOR@ + ident + spaced(generics.ty_generics)
        + spaced(generics.where_clause) + BODY_OPEN@
}

/// The implementation down to the opening of the struct literal.
pub open spec fn impl_head(ident: Seq<char>, generics: GenericsView) -> Seq<char> {
    impl_line(ident, generics) + METHOD_HEAD@
}

/// One line of the struct literal.
pub open spec fn line(content: Seq<char>) -> Seq<char> {
    INDENT@ + content + "\n"@
}

/// The initializers, one to a line, in order.
pub open spec fn initializer_lines(list: Seq<InitializerView>) -> Seq<char>
    decreases list.len(),
{
    if list.len() == 0 {
        Seq::empty()
    } else {
        initializer_lines(list.drop_last()) + line(list.last().text())
    }
}

/// The whole implementation. The spread follows the initializers exactly
/// where there are fewer of them than the struct has fields.
pub open spec fn impl_text(
    ident: Seq<char>,
    generics: GenericsView,
    list: Seq<InitializerView>,
    field_count: nat,
) -> Seq<char> {
    impl_head(ident, generics) + initializer_lines(list) + (if list.len() < field_count {
        line(DEFAULT_SPREAD@)
    } else {
        Seq::empty()
    }) + IMPL_TAIL@
}

/// What the derive yields: the implementation for a struct with named fields
/// whose attributes are all well formed, else the reason for refusing.
pub open spec fn derive_outcome(ast: DeriveInputView) -> Result<Seq<char>, DeriveError> {
    match ast.data {
        DataView::Named { fields } => match initializers(fields) {
            Ok(list) => Ok(impl_text(ast.ident, ast.generics, list, fields.len())),
            Err(error) => Err(error),
        },
        _ => Err(DeriveError::NotNamedStruct),
    }
}

fn bare_initializer(meta: &Meta, field_name: &str, value: String, error: ExpandError) -> (outcome:
    Result<Initializer, ExpandError>)
    ensures
        outcome_view(outcome) == bare_outcome(meta@, field_name@, value@, error),
{
    match meta {
        Meta::Path => Ok(Initializer { field: String::from_str(field_name), value }),
        _ => Err(error),
    }
}

/// Expands `#[ldtk_int_cell]`: the field's type builds the value through its
/// own implementation of the trait.
pub fn expand_ldtk_int_cell_attribute(
    attribute: &Attribute,
    field_name: &str,
    field_type: &Type,
) -> (outcome: Result<Initializer, ExpandError>)
    ensures
        outcome_view(outcome) == ldtk_int_cell_outcome(attribute@, field_name@, field_type@),
{
    let mut value = String::from_str("<");
    value.append(field_type.tokens.as_str());
    value.append(DELEGATED_TAIL);
    bare_initializer(&attribute.meta, field_name, value, ExpandError::LdtkIntCellForm)
}

/// Expands `#[from_int_grid_cell]`: the field's type converts the cell.
pub fn expand_from_int_grid_cell_attribute(
    attribute: &Attribute,
    field_name: &str,
    field_type: &Type,
) -> (outcome: Result<Initializer, ExpandError>)
    ensures
        outcome_view(outcome) == from_int_grid_cell_outcome(attribute@, field_name@, field_type@),
{
    let mut value = String::from_str("<");
    value.append(field_type.tokens.as_str());
    value.append(CONVERTED_TAIL);
    bare_initializer(&attribute.meta, field_name, value, ExpandError::FromIntGridCellForm)
}

/// Builds the initializer of `#[with(tokens)]` from what the parser says of
/// the tokens: whether they are a path, and how many parameters they have as
/// a closure.
pub fn callable_initializer(
    field_name: &str,
    tokens: &str,
    path: bool,
    parameters: Option<usize>,
) -> (outcome: Result<Initializer, ExpandError>)
    ensures
        outcome_view(outcome) == callable_outcome(field_name@, tokens@, path, parameters),
{
    let one_parameter = match parameters {
        Some(n) => n == 1,
        None => false,
    };
    if path {
        let mut value = String::from_str(tokens);
        value.append(PATH_CALL_TAIL);
        Ok(Initializer { field: String::from_str(field_name), value })
    } else if one_parameter {
        let mut value = String::from_str("(");
        value.append(tokens);
        value.append(CLOSURE_CALL_TAIL);
        Ok(Initializer { field: String::from_str(field_name), value })
    } else {
        Err(ExpandError::WithForm)
    }
}

/// Expands `#[with(..)]`: the path or closure in the brackets is called with
/// the cell. The field's type plays no part.
pub fn expand_with_attribute(attribute: &Attribute, field_name: &str, _field_type: &Type) -> (outcome:
    Result<Initializer, ExpandError>)
    ensures
        outcome_view(outcome) == with_outcome(attribute@, field_name@),
{
    match &attribute.meta {
        Meta::List { tokens } => {
            let path = parse_path(tokens.as_str());
            let parameters = if path {
                None
            } else {
                parse_closure(tokens.as_str())
            };
            callable_initializer(field_name, tokens.as_str(), path, parameters)
        },
        _ => Err(ExpandError::WithForm),
    }
}

/// Expands `#[default]`: the field gets its type's default value. The field's
/// type plays no part.
pub fn expand_default_attribute(
    attribute: &Attribute,
    field_name: &str,
    _field_type: &Type,
) -> (outcome: Result<Initializer, ExpandError>)
    ensures
        outcome_view(outcome) == default_outcome(attribute@, field_name@),
{
    bare_initializer(
        &attribute.meta,
        field_name,
        String::from_str(DEFAULT_VALUE),
        ExpandError::DefaultForm,
    )
}

/// Expands an attribute as its kind says.
pub fn expand_attribute(
    kind: AttributeKind,
    attribute: &Attribute,
    field_name: &str,
    field_type: &Type,
) -> (outcome: Result<Initializer, ExpandError>)
    ensures
        outcome_view(outcome) == attribute_outcome(kind, attribute@, field_name@, field_type@),
{
    match kind {
        AttributeKind::LdtkIntCell => expand_ldtk_int_cell_attribute(
            attribute,
            field_name,
            field_type,
        ),
        AttributeKind::FromIntGridCell => expand_from_int_grid_cell_attribute(
            attribute,
            field_name,
            field_type,
        ),
        AttributeKind::With => expand_with_attribute(attribute, field_name, field_type),
        AttributeKind::UseDefault => expand_default_attribute(attribute, field_name, field_type),
    }
}

/// Builds the initializers of a struct's fields, in declaration order, and
/// stops at the first field whose deciding attribute is malformed.
pub fn field_initializers(fields: &Vec<Field>) -> (outcome: Result<Vec<Initializer>, DeriveError>)
    ensures
        match outcome {
            Ok(list) => initializers(field_views(fields@)) == Ok::<_, DeriveError>(
                initializer_views(list@),
            ),
            Err(error) => initializers(field_views(fields@)) == Err::<Seq<InitializerView>, _>(
                error,
            ),
        },
{
    let ghost views = field_views(fields@);
    let mut list: Vec<Initializer> = Vec::new();
    let mut i: usize = 0;
    proof {
        assert(views.take(0).len() == 0);
        assert(initializer_views(list@) == Seq::<InitializerView>::empty());
    }
    while i < fields.len()
        invariant
            i <= fields.len(),
            views == field_views(fields@),
            initializers(views.take(i as int)) == Ok::<_, DeriveError>(initializer_views(list@)),
        decreases fields.len() - i,
    {
        let field = &fields[i];
        proof {
            assert(views.take(i + 1).drop_last() == views.take(i as int));
            assert(views.take(i + 1).last() == field@);
        }
        match select_attribute(&field.attrs) {
            None => {},
            Some((kind, index)) => {
                match expand_attribute(kind, &field.attrs[index], field.name.as_str(), &field.ty) {
                    Ok(initializer) => {
                        proof {
                            assert(initializer_views(list@.push(initializer))
                                == initializer_views(list@).push(initializer@));
                        }
                        list.push(initializer);
                    },
                    Err(error) => {
                        let failure = DeriveError::Attribute { field: i, attribute: index, error };
                        proof {
                            lemma_error_stays(views, i + 1);
                        }
                        return Err(failure);
                    },
                }
            },
        }
        i += 1;
    }
    proof {
        assert(views.take(i as int) == views);
    }
    Ok(list)
}

/// Once a field is refused, the fields after it change nothing.
pub proof fn lemma_error_stays(fields: Seq<FieldView>, n: int)
    requires
        0 <= n <= fields.len(),
        initializers(fields.take(n)) is Err,
    ensures
        initializers(fields) == initializers(fields.take(n)),
    decreases fields.len() - n,
{
    if n < fields.len() {
        assert(fields.take(n + 1).drop_last() == fields.take(n));
        lemma_error_stays(fields, n + 1);
    } else {
        assert(fields.take(n) == fields);
    }
}

fn push_spaced(text: &mut String, piece: &str)
    ensures
        final(text)@ == old(text)@ + spaced(piece@),
{
    if !piece.is_empty() {
        text.append(" ");
        text.append(piece);
    }
}

fn push_line(text: &mut String, content: &str)
    ensures
        final(text)@ == old(text)@ + line(content@),
{
    text.append(INDENT);
    text.append(content);
    text.append("\n");
}

/// Writes the implementation of the trait for the struct `ident`, with the
/// given initializers in its struct literal and, where they are fewer than
/// `field_count`, the default spread after them.
pub fn render_impl(
    ident: &str,
    generics: &Generics,
    list: &Vec<Initializer>,
    field_count: usize,
) -> (text: String)
    ensures
        text@ == impl_text(ident@, generics@, initializer_views(list@), field_count as nat),
{
    let mut text = String::from_str("impl");
    push_spaced(&mut text, generics.impl_generics.as_str());
    text.append(TRAIT_FOR);
    text.append(ident);
    push_spaced(&mut text, generics.ty_generics.as_str());
    push_spaced(&mut text, generics.where_clause.as_str());
    text.append(BODY_OPEN);
    text.append(METHOD_HEAD);
    let ghost views = initializer_views(list@);
    let mut i: usize = 0;
    while i < list.len()
        invariant
            i <= list.len(),
            views == initializer_views(list@),
            text@ == impl_head(ident@, generics@) + initializer_lines(views.take(i as int)),
        decreases list.len() - i,
    {
        proof {
            assert(views.take(i + 1).drop_last() == views.take(i as int));
            assert(views.take(i + 1).last() == list@[i as int]@);
        }
        let rendered = list[i].render();
        push_line(&mut text, rendered.as_str());
        i += 1;
    }
    proof {
        assert(views.take(i as int) == views);
    }
    if list.len() < field_count {
        push_line(&mut text, DEFAULT_SPREAD);
    }
    text.append(IMPL_TAIL);
    text
}

/// Expands the derive on `ast` into the source of the implementation.
///
/// Only a struct with named fields is accepted. Generic parameters and the
/// `where` clause are carried over to the implementation unchanged.
pub fn expand_ldtk_int_cell_derive(ast: DeriveInput) -> (outcome: Result<String, DeriveError>)
    ensures
        match outcome {
            Ok(text) => derive_outcome(ast@) == Ok::<_, DeriveError>(text@),
            Err(error) => derive_outcome(ast@) == Err::<Seq<char>, _>(error),
        },
{
    match &ast.data {
        Data::Named { fields } => {
            match field_initializers(fields) {
                Ok(list) => Ok(render_impl(ast.ident.as_str(), &ast.generics, &list, fields.len())),
                Err(error) => Err(error),
            }
        },
        _ => Err(DeriveError::NotNamedStruct),
    }
}

} // verus!
