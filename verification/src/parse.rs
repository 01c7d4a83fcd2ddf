//! Choosing the field that a generated implementation forwards to.

use crate::descriptor::{DeclKind, DescriptorView, Field, FieldView, StructDescriptor};
use crate::text::{decimal_text, index_text};
use vstd::prelude::*;

verus! {

/// Why no implementation can be generated for a declaration.
#[derive(Clone, Copy, Debug, PartialEq, Eq)]
pub enum DeriveError {
    /// The declaration is an enum or a union.
    NotAStruct,
    /// The struct has no field.
    NoFields,
    /// The struct has several fields and none carries the marker.
    MissingMarker,
    /// The struct has several fields and more than one carries the marker.
    /// `field` is the position of the second field that carries it and
    /// `marker` the index, among that field's attributes, of the first one
    /// that is the marker: the place to report.
    DuplicateMarker { field: usize, marker: usize },
}

impl DeriveError {
    /// What the user is told, where `marker` is the attribute that was looked
    /// for.
    pub open spec fn message_text(self, marker: Seq<char>) -> Seq<char> {
        match self {
            DeriveError::NotAStruct => "this macro can only be used for structs"@,
            DeriveError::NoFields => "struct must have fields"@,
            DeriveError::MissingMarker => "a single-field marker matching `"@ + marker
                + "` is required for structs with multiple fields"@,
            DeriveError::DuplicateMarker { .. } => "only one field may carry the `"@ + marker
                + "` marker"@,
        }
    }

    /// Writes what the user is told, where `marker` is the attribute that was
    /// looked for.
    pub fn message(&self, marker: &str) -> (s: String)
        ensures
            s@ == self.message_text(marker@),
    {
        match self {
            DeriveError::NotAStruct => String::from_str("this macro can only be used for structs"),
            DeriveError::NoFields => String::from_str("struct must have fields"),
            DeriveError::MissingMarker => {
                let mut s = String::from_str("a single-field marker matching `");
                s.append(marker);
                s.append("` is required for structs with multiple fields");
                s
            },
            DeriveError::DuplicateMarker { .. } => {
                let mut s = String::from_str("only one field may carry the `");
                s.append(marker);
                s.append("` marker");
                s
            },
        }
    }
}

/// What a generator needs to know of a struct once the field is chosen.
#[derive(Clone, Debug, PartialEq, Eq)]
pub struct ParsedData {
    /// The name of the struct.
    pub ident: String,
    /// The generic parameters of the struct, unchanged.
    pub generics: String,
    /// The position of the chosen field.
    pub position: usize,
    /// How the chosen field is referred to: by its name, or by its position
    /// if it has none.
    pub field_id: String,
    /// The type of the chosen field, unchanged.
    pub field_ty: String,
}

/// The mathematical value of a [`ParsedData`].
pub struct ParsedView {
    pub ident: Seq<char>,
    pub generics: Seq<char>,
    pub position: nat,
    pub field_id: Seq<char>,
    pub field_ty: Seq<char>,
}

impl View for ParsedData {
    type V = ParsedView;

    open spec fn view(&self) -> ParsedView {
        ParsedView {
            ident: self.ident@,
            generics: self.generics@,
            position: self.position as nat,
            field_id: self.field_id@,
            field_ty: self.field_ty@,
        }
    }
}

/// The position of the first field at or after `from` that carries `marker`,
/// or the number of fields if there is none.
pub open spec fn next_marked(fields: Seq<FieldView>, marker: Seq<char>, from: int) -> int
    decreases fields.len() - from,
{
    if from < 0 || from >= fields.len() {
        fields.len() as int
    } else if fields[from].carries(marker) {
        from
    } else {
        next_marked(fields, marker, from + 1)
    }
}

/// The field that an implementation for `marker` forwards to, by position.
///
/// Only a struct with at least one field has one. The only field of a struct
/// is chosen whatever its attributes are. Among several fields the one that
/// carries `marker` is chosen, and it has to be the only one that does.
pub open spec fn delegate(d: DescriptorView, marker: Seq<char>) -> Result<nat, DeriveError> {
    let first = next_marked(d.fields, marker, 0);
    let second = next_marked(d.fields, marker, first + 1);
    if d.kind != DeclKind::Struct {
        Err(DeriveError::NotAStruct)
    } else if d.fields.len() == 0 {
        Err(DeriveError::NoFields)
    } else if d.fields.len() == 1 {
        Ok(0)
    } else if first >= d.fields.len() {
        Err(DeriveError::MissingMarker)
    } else if second < d.fields.len() {
        Err(
            DeriveError::DuplicateMarker {
                field: second as usize,
                marker: d.fields[second].marker_position(marker) as usize,
            },
        )
    } else {
        Ok(first as nat)
    }
}

/// How the field at `position` is referred to.
pub open spec fn field_identity(f: FieldView, position: nat) -> Seq<char> {
    match f.name {
        Some(name) => name,
        None => decimal_text(position),
    }
}

/// What is handed to a generator when the field at `position` is chosen.
pub open spec fn parsed(d: DescriptorView, position: nat) -> ParsedView {
    ParsedView {
        ident: d.name,
        generics: d.generics,
        position,
        field_id: field_identity(d.fields[position as int], position),
        field_ty: d.fields[position as int].ty,
    }
}

/// The outcome of [`parse_derive_input`].
pub open spec fn parse_outcome(d: DescriptorView, marker: Seq<char>) -> Result<
    ParsedView,
    DeriveError,
> {
    match delegate(d, marker) {
        Ok(position) => Ok(parsed(d, position)),
        Err(e) => Err(e),
    }
}

/// `next_marked` returns the least position from `from` on whose field
/// carries the marker.
pub proof fn lemma_next_marked(fields: Seq<FieldView>, marker: Seq<char>, from: int)
    requires
        0 <= from <= fields.len(),
    ensures
        from <= next_marked(fields, marker, from) <= fields.len(),
        next_marked(fields, marker, from) < fields.len() ==> fields[next_marked(
            fields,
            marker,
            from,
        )].carries(marker),
        forall|k: int|
            from <= k < next_marked(fields, marker, from) ==> !(#[trigger] fields[k]).carries(
                marker,
            ),
    decreases fields.len() - from,
{
    if from < fields.len() && !fields[from].carries(marker) {
        lemma_next_marked(fields, marker, from + 1);
    }
}

/// Finds the first field at or after `from` that carries `marker`: its
/// position, and the index of the marker among its attributes.
fn find_marked(fields: &Vec<Field>, marker: &str, from: usize) -> (r: Option<(usize, usize)>)
    requires
        from <= fields.len(),
    ensures
        match r {
            Some((i, at)) => {
                &&& i < fields.len()
                &&& i == next_marked(fields@.map_values(|f: Field| f@), marker@, from as int)
                &&& at == fields[i as int]@.marker_position(marker@)
            },
            None => next_marked(fields@.map_values(|f: Field| f@), marker@, from as int)
                == fields.len(),
        },
{
    let ghost views = fields@.map_values(|f: Field| f@);
    let mut i: usize = from;
    while i < fields.len()
        invariant
            from <= i <= fields.len(),
            views == fields@.map_values(|f: Field| f@),
            next_marked(views, marker@, from as int) == next_marked(views, marker@, i as int),
        decreases fields.len() - i,
    {
        if let Some(at) = fields[i].marker_index(marker) {
            return Some((i, at));
        }
        i += 1;
    }
    None
}

/// Picks the field that an implementation for the attribute `attr_name`
/// forwards to, and collects what the generator writes out.
///
/// The checks are made in this order, and the first that fails decides the
/// error: the declaration is a struct; it has a field; and, where it has
/// several, exactly one of them carries `attr_name`.
pub fn parse_derive_input(input: &StructDescriptor, attr_name: &str) -> (r: Result<
    ParsedData,
    DeriveError,
>)
    ensures
        match r {
            Ok(data) => parse_outcome(input@, attr_name@) == Ok::<ParsedView, DeriveError>(data@),
            Err(e) => parse_outcome(input@, attr_name@) == Err::<ParsedView, DeriveError>(e),
        },
{
    match input.kind {
        DeclKind::Struct => {},
        _ => {
            return Err(DeriveError::NotAStruct);
        },
    }
    if input.fields.len() == 0 {
        return Err(DeriveError::NoFields);
    }
    let position = if input.fields.len() == 1 {
        0
    } else {
        let first = match find_marked(&input.fields, attr_name, 0) {
            Some((first, _)) => first,
            None => {
                return Err(DeriveError::MissingMarker);
            },
        };
        if let Some((field, marker)) = find_marked(&input.fields, attr_name, first + 1) {
            return Err(DeriveError::DuplicateMarker { field, marker });
        }
        first
    };
    let field = &input.fields[position];
    let field_id = match &field.name {
        Some(name) => name.clone(),
        None => index_text(position),
    };
    Ok(
        ParsedData {
            ident: input.name.clone(),
            generics: input.generics.clone(),
            position,
            field_id,
            field_ty: field.ty.clone(),
        },
    )
}

} // verus!
