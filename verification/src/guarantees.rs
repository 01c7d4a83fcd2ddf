//! What holds of every declaration that the generators are given.

use crate::async_read::{read_impl_text, read_outcome, READ_MARKER};
use crate::async_write::{write_impl_text, write_outcome, WRITE_MARKER};
use crate::descriptor::{lemma_first_occurrence, DeclKind, FieldView, StructDescriptor};
use crate::parse::{delegate, lemma_next_marked, next_marked, parsed, DeriveError};
use crate::text::lemma_decimal_text_injective;
use vstd::prelude::*;

verus! {

/// Whether the field at `i` carries `marker` and no other field does.
pub open spec fn only_marked(fields: Seq<FieldView>, marker: Seq<char>, i: int) -> bool {
    &&& 0 <= i < fields.len()
    &&& fields[i].carries(marker)
    &&& forall|k: int|
        0 <= k < fields.len() && k != i ==> !(#[trigger] fields[k]).carries(marker)
}

/// Whether the field at `b` is the second of `fields`, in declaration order,
/// that carries `marker`.
pub open spec fn second_marked(fields: Seq<FieldView>, marker: Seq<char>, b: int) -> bool {
    exists|a: int|
        {
            &&& 0 <= a < b < fields.len()
            &&& (#[trigger] fields[a]).carries(marker)
            &&& fields[b].carries(marker)
            &&& forall|k: int| 0 <= k < b && k != a ==> !(#[trigger] fields[k]).carries(marker)
        }
}

/// Whether `text` begins with `head`.
pub open spec fn begins_with(text: Seq<char>, head: Seq<char>) -> bool {
    head.len() <= text.len() && text.subrange(0, head.len() as int) == head
}

/// The beginning of an implementation of `trait_path` for the type `ident`
/// with the generic parameters `generics`, up to its bounds.
pub open spec fn impl_head_text(generics: Seq<char>, ident: Seq<char>, trait_path: Seq<char>) -> Seq<
    char,
> {
    "#[automatically_derived] impl "@ + generics + " "@ + trait_path + " for "@ + ident + " "@
        + generics
}

/// A struct with one field has that field chosen for reading and for writing,
/// and for any other marker, whatever attributes the field has.
pub proof fn single_field_is_chosen(d: StructDescriptor, marker: Seq<char>)
    requires
        d.kind == DeclKind::Struct,
        d@.fields.len() == 1,
    ensures
        delegate(d@, marker) == Ok::<nat, DeriveError>(0),
        read_outcome(d@) == Ok::<Seq<char>, DeriveError>(read_impl_text(parsed(d@, 0))),
        write_outcome(d@) == Ok::<Seq<char>, DeriveError>(write_impl_text(parsed(d@, 0))),
{
}

/// Among several fields, the one that alone carries the marker is chosen, and
/// the implementation is generated for it.
pub proof fn marked_field_is_chosen(d: StructDescriptor, marker: Seq<char>, i: int)
    requires
        d.kind == DeclKind::Struct,
        d@.fields.len() >= 2,
        only_marked(d@.fields, marker, i),
    ensures
        delegate(d@, marker) == Ok::<nat, DeriveError>(i as nat),
        marker == READ_MARKER@ ==> read_outcome(d@) == Ok::<Seq<char>, DeriveError>(
            read_impl_text(parsed(d@, i as nat)),
        ),
        marker == WRITE_MARKER@ ==> write_outcome(d@) == Ok::<Seq<char>, DeriveError>(
            write_impl_text(parsed(d@, i as nat)),
        ),
{
    lemma_next_marked(d@.fields, marker, 0);
    let first = next_marked(d@.fields, marker, 0);
    assert(first == i);
    lemma_next_marked(d@.fields, marker, first + 1);
}

/// Several fields of which none carries the marker are refused: nothing is
/// generated.
pub proof fn unmarked_fields_are_refused(d: StructDescriptor, marker: Seq<char>)
    requires
        d.kind == DeclKind::Struct,
        d@.fields.len() >= 2,
        forall|k: int| 0 <= k < d@.fields.len() ==> !(#[trigger] d@.fields[k]).carries(marker),
    ensures
        delegate(d@, marker) == Err::<nat, DeriveError>(DeriveError::MissingMarker),
        marker == READ_MARKER@ ==> read_outcome(d@) == Err::<Seq<char>, DeriveError>(
            DeriveError::MissingMarker,
        ),
        marker == WRITE_MARKER@ ==> write_outcome(d@) == Err::<Seq<char>, DeriveError>(
            DeriveError::MissingMarker,
        ),
{
    lemma_next_marked(d@.fields, marker, 0);
}

/// Several fields of which two or more carry the marker are refused: nothing
/// is generated. The place that is reported is the marker on the second of
/// them: never the first, and none after the second.
pub proof fn second_marked_field_is_reported(
    d: StructDescriptor,
    marker: Seq<char>,
    i: int,
    j: int,
)
    requires
        d.kind == DeclKind::Struct,
        0 <= i < j < d@.fields.len(),
        d@.fields[i].carries(marker),
        d@.fields[j].carries(marker),
    ensures
        delegate(d@, marker) matches Err(DeriveError::DuplicateMarker { field, marker: at }) && {
            &&& second_marked(d@.fields, marker, field as int)
            &&& field <= j
            &&& at < d@.fields[field as int].markers.len()
            &&& d@.fields[field as int].markers[at as int] == marker
            &&& forall|k: int| 0 <= k < at ==> d@.fields[field as int].markers[k] != marker
        },
        marker == READ_MARKER@ ==> read_outcome(d@) == Err::<Seq<char>, DeriveError>(
            delegate(d@, marker)->Err_0,
        ),
        marker == WRITE_MARKER@ ==> write_outcome(d@) == Err::<Seq<char>, DeriveError>(
            delegate(d@, marker)->Err_0,
        ),
{
    let fields = d@.fields;
    lemma_next_marked(fields, marker, 0);
    let first = next_marked(fields, marker, 0);
    lemma_next_marked(fields, marker, first + 1);
    let second = next_marked(fields, marker, first + 1);
    assert(first <= i);
    assert(second <= j);
    lemma_first_occurrence(fields[second].markers, marker, 0);
    assert(fields.len() == d.fields.len());
    assert(fields[second].markers.len() == d.fields@[second].markers.len());
    assert(fields[first].carries(marker));
}

/// Where one field alone is marked for reading and another alone for writing,
/// both implementations are generated, and they forward to these two fields:
/// to different positions, which fields without a name are told apart by.
pub proof fn read_and_write_may_differ(d: StructDescriptor, i: int, j: int)
    requires
        d.kind == DeclKind::Struct,
        d@.fields.len() >= 2,
        only_marked(d@.fields, READ_MARKER@, i),
        only_marked(d@.fields, WRITE_MARKER@, j),
        i != j,
    ensures
        read_outcome(d@) == Ok::<Seq<char>, DeriveError>(read_impl_text(parsed(d@, i as nat))),
        write_outcome(d@) == Ok::<Seq<char>, DeriveError>(write_impl_text(parsed(d@, j as nat))),
        parsed(d@, i as nat).position != parsed(d@, j as nat).position,
        d@.fields[i].name is None && d@.fields[j].name is None ==> parsed(d@, i as nat).field_id
            != parsed(d@, j as nat).field_id,
{
    marked_field_is_chosen(d, READ_MARKER@, i);
    marked_field_is_chosen(d, WRITE_MARKER@, j);
    if parsed(d@, i as nat).field_id == parsed(d@, j as nat).field_id && d@.fields[i].name is None
        && d@.fields[j].name is None {
        lemma_decimal_text_injective(i as nat, j as nat);
    }
}

/// Every generated implementation holds the generic parameters of the struct
/// exactly as they were given, once after `impl` and once after the name of
/// the struct.
pub proof fn generics_are_reproduced(d: StructDescriptor)
    ensures
        read_outcome(d@) matches Ok(code) ==> begins_with(
            code,
            impl_head_text(d@.generics, d@.name, "::tokio::io::AsyncRead"@),
        ),
        write_outcome(d@) matches Ok(code) ==> begins_with(
            code,
            impl_head_text(d@.generics, d@.name, "::tokio::io::AsyncWrite"@),
        ),
{
    if let Ok(code) = read_outcome(d@) {
        let head = impl_head_text(d@.generics, d@.name, "::tokio::io::AsyncRead"@);
        assert(code.subrange(0, head.len() as int) =~= head);
    }
    if let Ok(code) = write_outcome(d@) {
        let head = impl_head_text(d@.generics, d@.name, "::tokio::io::AsyncWrite"@);
        assert(code.subrange(0, head.len() as int) =~= head);
    }
}

} // verus!
