//! What holds of every expansion of the int-cell derive.

use crate::error::DeriveError;
use crate::ldtk_int_cell::{
    derive_outcome, field_outcome, impl_head, impl_line, impl_text, initializer_lines,
    initializers, line, DEFAULT_SPREAD, IMPL_TAIL,
};
use crate::selection::selected;
use crate::syntax::{DeriveInputView, FieldView};
use vstd::prelude::*;

verus! {

/// Whether a field carries an attribute of a known name.
pub open spec fn is_attributed(field: FieldView) -> bool {
    selected(field.attrs) is Some
}

/// The fields that carry an attribute of a known name, in declaration order.
pub open spec fn attributed(fields: Seq<FieldView>) -> Seq<FieldView> {
    fields.filter(|f: FieldView| is_attributed(f))
}

/// Whether a field's deciding attribute is malformed.
pub open spec fn is_refused(field: FieldView) -> bool {
    field_outcome(field) matches Some(Err(_))
}

/// The error that the field at index `k` gives if it is refused.
pub open spec fn refusal(field: FieldView, k: int) -> Option<DeriveError> {
    match field_outcome(field) {
        Some(Err((index, error))) => Some(
            DeriveError::Attribute { field: k as usize, attribute: index as usize, error },
        ),
        _ => None,
    }
}

/// An accepted struct gets one initializer for each field that carries a
/// known attribute, and no other.
pub proof fn lemma_initializer_count(fields: Seq<FieldView>)
    ensures
        initializers(fields) matches Ok(list) ==> list.len() == attributed(fields).len(),
    decreases fields.len(),
{
    reveal_with_fuel(Seq::filter, 2);
    if fields.len() > 0 {
        lemma_initializer_count(fields.drop_last());
    }
}

/// A struct is accepted exactly where no field of it is refused; the error of
/// a refused struct names its first refused field and that field's deciding
/// attribute.
pub proof fn lemma_first_refused_field(fields: Seq<FieldView>)
    ensures
        match initializers(fields) {
            Ok(_) => forall|i: int| 0 <= i < fields.len() ==> !is_refused(#[trigger] fields[i]),
            Err(failure) => exists|k: int|
                {
                    &&& 0 <= k < fields.len()
                    &&& #[trigger] is_refused(fields[k])
                    &&& forall|i: int| 0 <= i < k ==> !is_refused(#[trigger] fields[i])
                    &&& refusal(fields[k], k) == Some(failure)
                },
        },
    decreases fields.len(),
{
    if fields.len() > 0 {
        let earlier = fields.drop_last();
        lemma_first_refused_field(earlier);
        match initializers(earlier) {
            Ok(_) => {
                if is_refused(fields.last()) {
                    let k = fields.len() - 1;
                    assert(is_refused(fields[k]));
                    assert forall|i: int| 0 <= i < k implies !is_refused(#[trigger] fields[i]) by {
                        assert(fields[i] == earlier[i]);
                    }
                } else {
                    assert forall|i: int| 0 <= i < fields.len() implies !is_refused(
                        #[trigger] fields[i],
                    ) by {
                        if i < fields.len() - 1 {
                            assert(fields[i] == earlier[i]);
                        }
                    }
                }
            },
            Err(failure) => {
                let k = choose|k: int|
                    {
                        &&& 0 <= k < earlier.len()
                        &&& #[trigger] is_refused(earlier[k])
                        &&& forall|i: int| 0 <= i < k ==> !is_refused(#[trigger] earlier[i])
                        &&& refusal(earlier[k], k) == Some(failure)
                    };
                assert(fields[k] == earlier[k]);
                assert forall|i: int| 0 <= i < k implies !is_refused(#[trigger] fields[i]) by {
                    assert(fields[i] == earlier[i]);
                }
                assert(is_refused(fields[k]));
            },
        }
    }
}

/// A struct is accepted exactly where no field of it is refused.
pub proof fn lemma_accepted_iff_no_field_refused(fields: Seq<FieldView>)
    ensures
        initializers(fields) is Ok <==> forall|i: int|
            0 <= i < fields.len() ==> !is_refused(#[trigger] fields[i]),
{
    lemma_first_refused_field(fields);
}

/// Where every field carries a known attribute, the struct is accepted unless
/// one of them is malformed; an accepted struct gets as many initializers as
/// it has fields, and no default spread follows them.
pub proof fn lemma_every_field_attributed(ast: DeriveInputView)
    requires
        ast.data is Named,
        forall|i: int|
            0 <= i < ast.data->fields.len() ==> is_attributed(#[trigger] ast.data->fields[i]),
    ensures
        derive_outcome(ast) is Ok <==> forall|i: int|
            0 <= i < ast.data->fields.len() ==> !is_refused(#[trigger] ast.data->fields[i]),
        initializers(ast.data->fields) matches Ok(list) ==> {
            &&& list.len() == ast.data->fields.len()
            &&& derive_outcome(ast) == Ok::<_, DeriveError>(
                impl_head(ast.ident, ast.generics) + initializer_lines(list) + IMPL_TAIL@,
            )
        },
{
    let fields = ast.data->fields;
    lemma_accepted_iff_no_field_refused(fields);
    lemma_initializer_count(fields);
    lemma_filter_all(fields);
    if let Ok(list) = initializers(fields) {
        assert(impl_text(ast.ident, ast.generics, list, fields.len()) == impl_head(
            ast.ident,
            ast.generics,
        ) + initializer_lines(list) + IMPL_TAIL@);
    }
}

proof fn lemma_filter_all(fields: Seq<FieldView>)
    requires
        forall|i: int| 0 <= i < fields.len() ==> is_attributed(#[trigger] fields[i]),
    ensures
        attributed(fields).len() == fields.len(),
    decreases fields.len(),
{
    reveal_with_fuel(Seq::filter, 2);
    if fields.len() > 0 {
        let earlier = fields.drop_last();
        assert forall|i: int| 0 <= i < earlier.len() implies is_attributed(
            #[trigger] earlier[i],
        ) by {
            assert(earlier[i] == fields[i]);
        }
        lemma_filter_all(earlier);
        assert(is_attributed(fields[fields.len() - 1]));
    }
}

/// Where fewer fields carry a known attribute than the struct has, the
/// struct is accepted unless one of those is malformed; an accepted struct
/// gets one initializer for each of them, and the default spread follows the
/// initializers.
pub proof fn lemma_some_field_unattributed(ast: DeriveInputView)
    requires
        ast.data is Named,
        attributed(ast.data->fields).len() < ast.data->fields.len(),
    ensures
        derive_outcome(ast) is Ok <==> forall|i: int|
            0 <= i < ast.data->fields.len() ==> !is_refused(#[trigger] ast.data->fields[i]),
        initializers(ast.data->fields) matches Ok(list) ==> {
            &&& list.len() == attributed(ast.data->fields).len()
            &&& derive_outcome(ast) == Ok::<_, DeriveError>(
                impl_head(ast.ident, ast.generics) + initializer_lines(list) + line(
                    DEFAULT_SPREAD@,
                ) + IMPL_TAIL@,
            )
        },
{
    lemma_accepted_iff_no_field_refused(ast.data->fields);
    lemma_initializer_count(ast.data->fields);
}

/// Anything but a struct with named fields is refused, and with that reason.
pub proof fn lemma_only_named_structs(ast: DeriveInputView)
    ensures
        ast.data is Named || derive_outcome(ast) == Err::<Seq<char>, _>(
            DeriveError::NotNamedStruct,
        ),
        derive_outcome(ast) == Err::<Seq<char>, _>(DeriveError::NotNamedStruct) ==> !(ast.data is Named),
{
    if ast.data is Named {
        lemma_first_refused_field(ast.data->fields);
    }
}

/// The emitted implementation opens with the struct's name and the three
/// pieces of its generics, each as it was given.
pub proof fn lemma_generics_carried_over(ast: DeriveInputView)
    ensures
        derive_outcome(ast) matches Ok(text) ==> impl_line(ast.ident, ast.generics).is_prefix_of(
            text,
        ),
{
    if let Ok(text) = derive_outcome(ast) {
        let first = impl_line(ast.ident, ast.generics);
        assert(text.subrange(0, first.len() as int) == first);
    }
}

} // verus!
