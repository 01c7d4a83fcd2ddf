//! The description of a declaration that the generators work on.

use vstd::prelude::*;

verus! {

/// What kind of item a declaration is.
#[derive(Clone, Copy, Debug, PartialEq, Eq)]
pub enum DeclKind {
    Struct,
    Enum,
    Union,
}

/// One field of a struct. Its position is its index among the fields of the
/// struct; a field without a name, as in a tuple struct, is referred to by
/// that position.
#[derive(Clone, Debug, PartialEq, Eq)]
pub struct Field {
    /// The field's name, if it has one.
    pub name: Option<String>,
    /// The field's type, as source text. It is never looked into.
    pub ty: String,
    /// The paths of the attributes on the field, in the order they are
    /// written, each as source text.
    pub markers: Vec<String>,
}

/// The mathematical value of a [`Field`].
pub struct FieldView {
    pub name: Option<Seq<char>>,
    pub ty: Seq<char>,
    pub markers: Seq<Seq<char>>,
}

impl View for Field {
    type V = FieldView;

    open spec fn view(&self) -> FieldView {
        FieldView {
            name: match self.name {
                Some(n) => Some(n@),
                None => None,
            },
            ty: self.ty@,
            markers: self.markers@.map_values(|m: String| m@),
        }
    }
}

/// A declaration handed to a generator.
#[derive(Clone, Debug, PartialEq, Eq)]
pub struct StructDescriptor {
    /// Whether the declaration is a struct at all.
    pub kind: DeclKind,
    /// The name of the declared type.
    pub name: String,
    /// The generic parameters with their angle brackets, as source text; empty
    /// where the type has none. They are never looked into.
    pub generics: String,
    /// The fields, in declaration order.
    pub fields: Vec<Field>,
}

/// The mathematical value of a [`StructDescriptor`].
pub struct DescriptorView {
    pub kind: DeclKind,
    pub name: Seq<char>,
    pub generics: Seq<char>,
    pub fields: Seq<FieldView>,
}

impl View for StructDescriptor {
    type V = DescriptorView;

    open spec fn view(&self) -> DescriptorView {
        DescriptorView {
            kind: self.kind,
            name: self.name@,
            generics: self.generics@,
            fields: self.fields@.map_values(|f: Field| f@),
        }
    }
}

impl FieldView {
    /// Whether the field has an attribute whose path is `marker`.
    pub open spec fn carries(self, marker: Seq<char>) -> bool {
        self.markers.contains(marker)
    }

    /// The index of the first attribute of the field whose path is `marker`,
    /// or the number of attributes if none is.
    pub open spec fn marker_position(self, marker: Seq<char>) -> int {
        first_occurrence(self.markers, marker, 0)
    }
}

/// The least index from `from` on at which `s` holds `x`, or the length of
/// `s` if there is none.
pub open spec fn first_occurrence(s: Seq<Seq<char>>, x: Seq<char>, from: int) -> int
    decreases s.len() - from,
{
    if from < 0 || from >= s.len() {
        s.len() as int
    } else if s[from] == x {
        from
    } else {
        first_occurrence(s, x, from + 1)
    }
}

/// `first_occurrence` returns the least index from `from` on at which `s`
/// holds `x`.
pub proof fn lemma_first_occurrence(s: Seq<Seq<char>>, x: Seq<char>, from: int)
    requires
        0 <= from <= s.len(),
    ensures
        from <= first_occurrence(s, x, from) <= s.len(),
        first_occurrence(s, x, from) < s.len() ==> s[first_occurrence(s, x, from)] == x,
        forall|k: int| from <= k < first_occurrence(s, x, from) ==> s[k] != x,
        from == 0 ==> (first_occurrence(s, x, from) < s.len() <==> s.contains(x)),
    decreases s.len() - from,
{
    if from < s.len() && s[from] != x {
        lemma_first_occurrence(s, x, from + 1);
    }
}

impl Field {
    /// The index of the first attribute of the field whose path is `marker`,
    /// if there is one.
    pub fn marker_index(&self, marker: &str) -> (r: Option<usize>)
        ensures
            r is Some <==> self@.carries(marker@),
            r matches Some(j) ==> j == self@.marker_position(marker@),
    {
        let wanted = String::from_str(marker);
        let mut j: usize = 0;
        while j < self.markers.len()
            invariant
                j <= self.markers.len(),
                wanted@ == marker@,
                first_occurrence(self@.markers, marker@, 0) == first_occurrence(
                    self@.markers,
                    marker@,
                    j as int,
                ),
            decreases self.markers.len() - j,
        {
            if self.markers[j] == wanted {
                proof {
                    lemma_first_occurrence(self@.markers, marker@, 0);
                }
                return Some(j);
            }
            j += 1;
        }
        proof {
            lemma_first_occurrence(self@.markers, marker@, 0);
        }
        None
    }
}

} // verus!
