//! Descriptions of registered types: the shape of a type, its fields and
//! variants, and what a registry knows about it besides its shape.

use vstd::prelude::*;
use crate::bounds::{provided, BoundsProvider, BoundsView, Target};

verus! {

/// One field of a struct, a tuple or an enum variant.
pub struct Field {
    /// The name of a field of a struct; `None` for a position of a tuple.
    pub name: Option<String>,
    /// The path of the field's type.
    pub type_path: String,
    /// The index of the field among its siblings, counted from zero. Bounds
    /// are declared by it.
    pub position: usize,
}

/// Model of [`Field`].
pub struct FieldView {
    pub name: Option<Seq<char>>,
    pub type_path: Seq<char>,
    pub position: nat,
}

impl View for Field {
    type V = FieldView;

    open spec fn view(&self) -> FieldView {
        FieldView {
            name: match self.name {
                Some(name) => Some(name@),
                None => None,
            },
            type_path: self.type_path@,
            position: self.position as nat,
        }
    }
}

/// The models of a sequence of fields.
pub open spec fn fields_view(fields: Seq<Field>) -> Seq<FieldView> {
    fields.map_values(|f: Field| f@)
}

/// One case of an enum.
pub enum Variant {
    /// A variant without payload.
    Unit { name: String },
    /// A variant with unnamed fields.
    Tuple { name: String, fields: Vec<Field> },
    /// A variant with named fields.
    Struct { name: String, fields: Vec<Field> },
}

/// Model of [`Variant`].
pub enum VariantView {
    Unit { name: Seq<char> },
    Tuple { name: Seq<char>, fields: Seq<FieldView> },
    Struct { name: Seq<char>, fields: Seq<FieldView> },
}

impl View for Variant {
    type V = VariantView;

    open spec fn view(&self) -> VariantView {
        match self {
            Variant::Unit { name } => VariantView::Unit { name: name@ },
            Variant::Tuple { name, fields } => VariantView::Tuple {
                name: name@,
                fields: fields_view(fields@),
            },
            Variant::Struct { name, fields } => VariantView::Struct {
                name: name@,
                fields: fields_view(fields@),
            },
        }
    }
}

/// The models of a sequence of variants.
pub open spec fn variants_view(variants: Seq<Variant>) -> Seq<VariantView> {
    variants.map_values(|v: Variant| v@)
}

impl VariantView {
    /// The name of the variant.
    pub open spec fn name(self) -> Seq<char> {
        match self {
            VariantView::Unit { name } => name,
            VariantView::Tuple { name, .. } => name,
            VariantView::Struct { name, .. } => name,
        }
    }
}

/// The shape of a type.
pub enum TypeDescriptor {
    /// A record of named fields.
    Struct { fields: Vec<Field> },
    /// A choice between variants.
    Enum { variants: Vec<Variant> },
    /// A struct whose fields are addressed by position.
    TupleStruct { fields: Vec<Field> },
    /// A sequence of any length, all of whose elements have one type.
    List { element_type_path: String },
    /// A sequence of fixed length, all of whose elements have one type.
    FixedArray { element_type_path: String },
    /// A map with any keys, all of whose values have one type.
    KeyedMap { value_type_path: String },
    /// A tuple.
    Tuple { fields: Vec<Field> },
    /// A value without further structure.
    Value { type_path: String },
}

/// Model of [`TypeDescriptor`].
pub enum TypeDescriptorView {
    Struct { fields: Seq<FieldView> },
    Enum { variants: Seq<VariantView> },
    TupleStruct { fields: Seq<FieldView> },
    List { element_type_path: Seq<char> },
    FixedArray { element_type_path: Seq<char> },
    KeyedMap { value_type_path: Seq<char> },
    Tuple { fields: Seq<FieldView> },
    Value { type_path: Seq<char> },
}

impl View for TypeDescriptor {
    type V = TypeDescriptorView;

    open spec fn view(&self) -> TypeDescriptorView {
        match self {
            TypeDescriptor::Struct { fields } => TypeDescriptorView::Struct {
                fields: fields_view(fields@),
            },
            TypeDescriptor::Enum { variants } => TypeDescriptorView::Enum {
                variants: variants_view(variants@),
            },
            TypeDescriptor::TupleStruct { fields } => TypeDescriptorView::TupleStruct {
                fields: fields_view(fields@),
            },
            TypeDescriptor::List { element_type_path } => TypeDescriptorView::List {
                element_type_path: element_type_path@,
            },
            TypeDescriptor::FixedArray { element_type_path } => TypeDescriptorView::FixedArray {
                element_type_path: element_type_path@,
            },
            TypeDescriptor::KeyedMap { value_type_path } => TypeDescriptorView::KeyedMap {
                value_type_path: value_type_path@,
            },
            TypeDescriptor::Tuple { fields } => TypeDescriptorView::Tuple {
                fields: fields_view(fields@),
            },
            TypeDescriptor::Value { type_path } => TypeDescriptorView::Value {
                type_path: type_path@,
            },
        }
    }
}

/// One entry of a registry: a type, identified by its path, with its shape,
/// what the host's object model registers it as, and the bounds declared for
/// its fields, if any are.
pub struct TypeRegistration {
    /// The fully qualified path of the type. The document is sorted by it.
    pub type_path: String,
    pub descriptor: TypeDescriptor,
    pub is_component: bool,
    pub is_resource: bool,
    pub bounds: Option<BoundsProvider>,
}

/// Model of [`TypeRegistration`].
pub struct TypeRegistrationView {
    pub type_path: Seq<char>,
    pub descriptor: TypeDescriptorView,
    pub is_component: bool,
    pub is_resource: bool,
    /// The declared bounds by target; empty where no provider is present.
    pub bounds: Map<Target, BoundsView>,
}

impl View for TypeRegistration {
    type V = TypeRegistrationView;

    open spec fn view(&self) -> TypeRegistrationView {
        TypeRegistrationView {
            type_path: self.type_path@,
            descriptor: self.descriptor@,
            is_component: self.is_component,
            is_resource: self.is_resource,
            bounds: provided(self.bounds),
        }
    }
}

/// The models of a sequence of registrations.
pub open spec fn registrations_view(types: Seq<TypeRegistration>) -> Seq<TypeRegistrationView> {
    types.map_values(|t: TypeRegistration| t@)
}

impl FieldView {
    /// A field of a struct at index `index`: it has a name, the path of its
    /// type is not empty, and its position is its index.
    pub open spec fn is_named_at(self, index: int) -> bool {
        self.name is Some && self.type_path.len() > 0 && self.position == index
    }

    /// A field of a tuple at index `index`: it has no name, the path of its
    /// type is not empty, and its position is its index.
    pub open spec fn is_positional_at(self, index: int) -> bool {
        self.name is None && self.type_path.len() > 0 && self.position == index
    }
}

/// Whether a sequence of fields is that of a struct.
pub open spec fn named_fields(fields: Seq<FieldView>) -> bool {
    forall|i: int| 0 <= i < fields.len() ==> (#[trigger] fields[i]).is_named_at(i)
}

/// Whether a sequence of fields is that of a tuple.
pub open spec fn positional_fields(fields: Seq<FieldView>) -> bool {
    forall|i: int| 0 <= i < fields.len() ==> (#[trigger] fields[i]).is_positional_at(i)
}

impl VariantView {
    /// Whether the variant has a name and fields of its kind.
    pub open spec fn well_formed(self) -> bool {
        &&& self.name().len() > 0
        &&& match self {
            VariantView::Unit { .. } => true,
            VariantView::Tuple { fields, .. } => positional_fields(fields),
            VariantView::Struct { fields, .. } => named_fields(fields),
        }
    }
}

/// Whether every variant of a sequence is well formed.
pub open spec fn well_formed_variants(variants: Seq<VariantView>) -> bool {
    forall|i: int| 0 <= i < variants.len() ==> (#[trigger] variants[i]).well_formed()
}

impl TypeDescriptorView {
    /// Whether the shape is well formed: fields and variants are of the kind
    /// that the shape asks for, and no type path is empty.
    pub open spec fn well_formed(self) -> bool {
        match self {
            TypeDescriptorView::Struct { fields } => named_fields(fields),
            TypeDescriptorView::Enum { variants } => well_formed_variants(variants),
            TypeDescriptorView::TupleStruct { fields } => positional_fields(fields),
            TypeDescriptorView::List { element_type_path } => element_type_path.len() > 0,
            TypeDescriptorView::FixedArray { element_type_path } => element_type_path.len() > 0,
            TypeDescriptorView::KeyedMap { value_type_path } => value_type_path.len() > 0,
            TypeDescriptorView::Tuple { fields } => positional_fields(fields),
            TypeDescriptorView::Value { type_path } => type_path.len() > 0,
        }
    }
}

impl TypeRegistrationView {
    /// Whether the registration is well formed: it has a type path, and its
    /// shape is well formed.
    pub open spec fn well_formed(self) -> bool {
        self.type_path.len() > 0 && self.descriptor.well_formed()
    }
}

impl Field {
    /// Tests whether this is a field of a struct at index `index`.
    pub fn is_named_at(&self, index: usize) -> (ok: bool)
        ensures
            ok == self@.is_named_at(index as int),
    {
        self.name.is_some() && !self.type_path.as_str().is_empty() && self.position == index
    }

    /// Tests whether this is a field of a tuple at index `index`.
    pub fn is_positional_at(&self, index: usize) -> (ok: bool)
        ensures
            ok == self@.is_positional_at(index as int),
    {
        self.name.is_none() && !self.type_path.as_str().is_empty() && self.position == index
    }
}

/// Tests whether a sequence of fields is that of a struct.
pub fn are_named_fields(fields: &Vec<Field>) -> (ok: bool)
    ensures
        ok == named_fields(fields_view(fields@)),
{
    let mut i: usize = 0;
    while i < fields.len()
        invariant
            i <= fields.len(),
            forall|k: int| 0 <= k < i ==> (#[trigger] fields_view(fields@)[k]).is_named_at(k),
        decreases fields.len() - i,
    {
        if !fields[i].is_named_at(i) {
            assert(!fields_view(fields@)[i as int].is_named_at(i as int));
            return false;
        }
        i += 1;
    }
    true
}

/// Tests whether a sequence of fields is that of a tuple.
pub fn are_positional_fields(fields: &Vec<Field>) -> (ok: bool)
    ensures
        ok == positional_fields(fields_view(fields@)),
{
    let mut i: usize = 0;
    while i < fields.len()
        invariant
            i <= fields.len(),
            forall|k: int| 0 <= k < i ==> (#[trigger] fields_view(fields@)[k]).is_positional_at(k),
        decreases fields.len() - i,
    {
        if !fields[i].is_positional_at(i) {
            assert(!fields_view(fields@)[i as int].is_positional_at(i as int));
            return false;
        }
        i += 1;
    }
    true
}

impl Variant {
    /// Tests whether the variant is well formed.
    pub fn is_well_formed(&self) -> (ok: bool)
        ensures
            ok == self@.well_formed(),
    {
        match self {
            Variant::Unit { name } => !name.as_str().is_empty(),
            Variant::Tuple { name, fields } => !name.as_str().is_empty() && are_positional_fields(
                fields,
            ),
            Variant::Struct { name, fields } => !name.as_str().is_empty() && are_named_fields(
                fields,
            ),
        }
    }
}

/// Tests whether every variant of a sequence is well formed.
pub fn are_well_formed_variants(variants: &Vec<Variant>) -> (ok: bool)
    ensures
        ok == well_formed_variants(variants_view(variants@)),
{
    let mut i: usize = 0;
    while i < variants.len()
        invariant
            i <= variants.len(),
            forall|k: int| 0 <= k < i ==> (#[trigger] variants_view(variants@)[k]).well_formed(),
        decreases variants.len() - i,
    {
        if !variants[i].is_well_formed() {
            assert(!variants_view(variants@)[i as int].well_formed());
            return false;
        }
        i += 1;
    }
    true
}

impl TypeDescriptor {
    /// Tests whether the shape is well formed.
    pub fn is_well_formed(&self) -> (ok: bool)
        ensures
            ok == self@.well_formed(),
    {
        match self {
            TypeDescriptor::Struct { fields } => are_named_fields(fields),
            TypeDescriptor::Enum { variants } => are_well_formed_variants(variants),
            TypeDescriptor::TupleStruct { fields } => are_positional_fields(fields),
            TypeDescriptor::List { element_type_path } => !element_type_path.as_str().is_empty(),
            TypeDescriptor::FixedArray { element_type_path } => !element_type_path.as_str().is_empty(),
            TypeDescriptor::KeyedMap { value_type_path } => !value_type_path.as_str().is_empty(),
            TypeDescriptor::Tuple { fields } => are_positional_fields(fields),
            TypeDescriptor::Value { type_path } => !type_path.as_str().is_empty(),
        }
    }
}

impl TypeRegistration {
    /// Tests whether the registration is well formed.
    pub fn is_well_formed(&self) -> (ok: bool)
        ensures
            ok == self@.well_formed(),
    {
        !self.type_path.as_str().is_empty() && self.descriptor.is_well_formed()
    }
}

} // verus!
