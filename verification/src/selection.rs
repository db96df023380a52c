//! Which attribute decides how a field is built.
//!
//! Four attribute names are known. They are tried in a fixed order of
//! priority, and the first name that any attribute of the field carries wins:
//! the field's other attributes are then not looked at, known or not. An
//! attribute of any other name is passed over.

use crate::syntax::{attribute_views, Attribute, AttributeView};
use vstd::prelude::*;
use vstd::string::StringExecFns;

verus! {

pub const LDTK_INT_CELL_ATTRIBUTE_NAME: &'static str = "ldtk_int_cell";

pub const FROM_INT_GRID_CELL_ATTRIBUTE_NAME: &'static str = "from_int_grid_cell";

pub const WITH_ATTRIBUTE_NAME: &'static str = "with";

pub const DEFAULT_ATTRIBUTE_NAME: &'static str = "default";

/// The known attributes, from the highest priority to the lowest.
#[derive(Clone, Copy, Debug, PartialEq, Eq, Structural)]
pub enum AttributeKind {
    LdtkIntCell,
    FromIntGridCell,
    With,
    UseDefault,
}

impl AttributeKind {
    /// The attribute's name in source.
    pub open spec fn name(self) -> Seq<char> {
        match self {
            AttributeKind::LdtkIntCell => LDTK_INT_CELL_ATTRIBUTE_NAME@,
            AttributeKind::FromIntGridCell => FROM_INT_GRID_CELL_ATTRIBUTE_NAME@,
            AttributeKind::With => WITH_ATTRIBUTE_NAME@,
            AttributeKind::UseDefault => DEFAULT_ATTRIBUTE_NAME@,
        }
    }

    /// The place of the kind in the order of priority, the highest first.
    pub open spec fn rank(self) -> int {
        match self {
            AttributeKind::LdtkIntCell => 0,
            AttributeKind::FromIntGridCell => 1,
            AttributeKind::With => 2,
            AttributeKind::UseDefault => 3,
        }
    }

    pub fn name_text(&self) -> (text: &'static str)
        ensures
            text@ == self.name(),
    {
        match self {
            AttributeKind::LdtkIntCell => LDTK_INT_CELL_ATTRIBUTE_NAME,
            AttributeKind::FromIntGridCell => FROM_INT_GRID_CELL_ATTRIBUTE_NAME,
            AttributeKind::With => WITH_ATTRIBUTE_NAME,
            AttributeKind::UseDefault => DEFAULT_ATTRIBUTE_NAME,
        }
    }
}

/// Whether `i` is the index of the first attribute named `name`.
pub open spec fn is_first_named(attrs: Seq<AttributeView>, name: Seq<char>, i: int) -> bool {
    &&& 0 <= i < attrs.len()
    &&& attrs[i].name == name
    &&& forall|j: int| 0 <= j < i ==> attrs[j].name != name
}

/// The index of the first attribute named `name`, if there is one.
pub open spec fn first_named(attrs: Seq<AttributeView>, name: Seq<char>) -> Option<int> {
    if exists|i: int| is_first_named(attrs, name, i) {
        Some(choose|i: int| is_first_named(attrs, name, i))
    } else {
        None
    }
}

/// The attribute that decides: its kind and its index. The kinds are tried in
/// order of priority, whatever the order of the attributes.
pub open spec fn selected(attrs: Seq<AttributeView>) -> Option<(AttributeKind, int)> {
    match first_named(attrs, AttributeKind::LdtkIntCell.name()) {
        Some(i) => Some((AttributeKind::LdtkIntCell, i)),
        None => match first_named(attrs, AttributeKind::FromIntGridCell.name()) {
            Some(i) => Some((AttributeKind::FromIntGridCell, i)),
            None => match first_named(attrs, AttributeKind::With.name()) {
                Some(i) => Some((AttributeKind::With, i)),
                None => match first_named(attrs, AttributeKind::UseDefault.name()) {
                    Some(i) => Some((AttributeKind::UseDefault, i)),
                    None => None,
                },
            },
        },
    }
}

/// There is at most one first attribute of a name.
pub proof fn lemma_first_named_is(attrs: Seq<AttributeView>, name: Seq<char>, i: int)
    requires
        is_first_named(attrs, name, i),
    ensures
        first_named(attrs, name) == Some(i),
{
    let k = choose|k: int| is_first_named(attrs, name, k);
    assert(is_first_named(attrs, name, k));
    if k < i {
        assert(attrs[k].name != name);
    } else if i < k {
        assert(attrs[i].name != name);
    }
}

/// Finds the first attribute named `name`.
pub fn find_attribute(attrs: &Vec<Attribute>, name: &str) -> (found: Option<usize>)
    ensures
        match found {
            Some(i) => first_named(attribute_views(attrs@), name@) == Some(i as int),
            None => first_named(attribute_views(attrs@), name@) is None,
        },
{
    let wanted = String::from_str(name);
    let ghost views = attribute_views(attrs@);
    let mut i: usize = 0;
    while i < attrs.len()
        invariant
            i <= attrs.len(),
            wanted@ == name@,
            views == attribute_views(attrs@),
            forall|j: int| 0 <= j < i ==> views[j].name != name@,
        decreases attrs.len() - i,
    {
        if attrs[i].name == wanted {
            proof {
                lemma_first_named_is(views, name@, i as int);
            }
            return Some(i);
        }
        i += 1;
    }
    proof {
        assert forall|k: int| !is_first_named(views, name@, k) by {
            if 0 <= k < views.len() {
                assert(views[k].name != name@);
            }
        }
    }
    None
}

/// Finds the attribute that decides how the field is built.
pub fn select_attribute(attrs: &Vec<Attribute>) -> (choice: Option<(AttributeKind, usize)>)
    ensures
        match choice {
            Some((kind, i)) => selected(attribute_views(attrs@)) == Some((kind, i as int)),
            None => selected(attribute_views(attrs@)) is None,
        },
{
    if let Some(i) = find_attribute(attrs, AttributeKind::LdtkIntCell.name_text()) {
        return Some((AttributeKind::LdtkIntCell, i));
    }
    if let Some(i) = find_attribute(attrs, AttributeKind::FromIntGridCell.name_text()) {
        return Some((AttributeKind::FromIntGridCell, i));
    }
    if let Some(i) = find_attribute(attrs, AttributeKind::With.name_text()) {
        return Some((AttributeKind::With, i));
    }
    if let Some(i) = find_attribute(attrs, AttributeKind::UseDefault.name_text()) {
        return Some((AttributeKind::UseDefault, i));
    }
    None
}

/// Where some attribute carries a name, there is a first one that does.
pub proof fn lemma_has_first_named(attrs: Seq<AttributeView>, name: Seq<char>, i: int)
    requires
        0 <= i < attrs.len(),
        attrs[i].name == name,
    ensures
        first_named(attrs, name) is Some,
    decreases i,
{
    if forall|j: int| 0 <= j < i ==> attrs[j].name != name {
        assert(is_first_named(attrs, name, i));
    } else {
        let j = choose|j: int| 0 <= j < i && attrs[j].name == name;
        lemma_has_first_named(attrs, name, j);
    }
}

/// What `selected` picks is an attribute of the field that carries the name
/// of the kind picked, and no attribute before it carries that name. Where it
/// picks none, no attribute carries the name of any kind.
pub proof fn lemma_selected_is_named(attrs: Seq<AttributeView>)
    ensures
        match selected(attrs) {
            Some((kind, i)) => is_first_named(attrs, kind.name(), i),
            None => forall|i: int, kind: AttributeKind|
                0 <= i < attrs.len() ==> #[trigger] attrs[i].name != #[trigger] kind.name(),
        },
{
    if selected(attrs) is None {
        assert forall|i: int, kind: AttributeKind| 0 <= i < attrs.len() implies #[trigger] attrs[i].name
            != #[trigger] kind.name() by {
            if attrs[i].name == kind.name() {
                lemma_has_first_named(attrs, kind.name(), i);
            }
        }
    }
}

/// The first match wins: where an attribute decides, the field carries no
/// attribute of a kind of higher priority, at whatever place.
pub proof fn lemma_first_match_wins(attrs: Seq<AttributeView>, other: AttributeKind, j: int)
    requires
        selected(attrs) matches Some((kind, _)) && other.rank() < kind.rank(),
        0 <= j < attrs.len(),
    ensures
        attrs[j].name != other.name(),
{
    if attrs[j].name == other.name() {
        lemma_has_first_named(attrs, other.name(), j);
    }
}

} // verus!
