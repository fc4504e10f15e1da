//! The registry and its export: the document of all registered types,
//! pretty-printed into a byte sink.

use vstd::prelude::*;
use crate::descriptor::{registrations_view, TypeRegistration, TypeRegistrationView};
use crate::document::{
    build_document, export_nodes, exported_document, has_name, schema_nodes, sort_nodes,
    well_formed_types,
};
use crate::json::{json_of, json_to_vec_pretty, jsons_of, pretty_bytes};
use crate::schema::{lemma_node_has_name, schema_node};

verus! {

/// Why an export did not happen.
#[derive(Debug)]
pub enum ExportError {
    /// The document could not be serialized.
    Serialization(serde_json::Error),
}

/// A catalog of registered types, in the order in which they were
/// registered.
pub struct TypeRegistry {
    pub types: Vec<TypeRegistration>,
}

impl View for TypeRegistry {
    type V = Seq<TypeRegistrationView>;

    open spec fn view(&self) -> Seq<TypeRegistrationView> {
        registrations_view(self.types@)
    }
}

impl TypeRegistry {
    /// A registry without types.
    pub fn new() -> (registry: Self)
        ensures
            registry@ == Seq::<TypeRegistrationView>::empty(),
    {
        let registry = TypeRegistry { types: Vec::new() };
        assert(registry@ =~= Seq::<TypeRegistrationView>::empty());
        registry
    }

    /// Registers one more type, after those that are registered already.
    pub fn register(&mut self, registration: TypeRegistration)
        ensures
            final(self)@ == old(self)@.push(registration@),
    {
        self.types.push(registration);
        assert(self@ =~= old(self)@.push(registration@));
    }

    /// The number of registered types.
    pub fn len(&self) -> (count: usize)
        ensures
            count == self@.len(),
    {
        self.types.len()
    }

    /// Tests whether every registered type is well formed, as an export
    /// asks.
    pub fn is_well_formed(&self) -> (ok: bool)
        ensures
            ok == well_formed_types(self@),
    {
        let mut i: usize = 0;
        while i < self.types.len()
            invariant
                i <= self.types.len(),
                forall|k: int| 0 <= k < i ==> (#[trigger] self@[k]).well_formed(),
            decreases self.types.len() - i,
        {
            if !self.types[i].is_well_formed() {
                assert(!self@[i as int].well_formed());
                return false;
            }
            i += 1;
        }
        true
    }
}

/// Ends an export with what the serializer returned: its bytes are appended
/// to the sink and the number of exported types is returned, or the sink is
/// left as it was and the serializer's error is returned.
pub fn write_rendered(
    rendered: Result<Vec<u8>, serde_json::Error>,
    count: usize,
    writer: &mut Vec<u8>,
) -> (outcome: Result<usize, ExportError>)
    ensures
        match rendered {
            Ok(bytes) => outcome == Ok::<usize, ExportError>(count) && final(writer)@ == old(
                writer,
            )@ + bytes@,
            Err(error) => outcome == Err::<usize, ExportError>(ExportError::Serialization(error))
                && final(writer)@ == old(writer)@,
        },
{
    match rendered {
        Ok(bytes) => {
            let mut bytes = bytes;
            writer.append(&mut bytes);
            Ok(count)
        },
        Err(error) => Err(ExportError::Serialization(error)),
    }
}

/// What an export of `types` leaves behind: the sink holds what it held
/// before, followed by the pretty-printed document of the types, and the
/// count is the number of types.
pub open spec fn exported(
    types: Seq<TypeRegistrationView>,
    before: Seq<u8>,
    after: Seq<u8>,
    count: usize,
) -> bool {
    count == types.len() && after == before + pretty_bytes(exported_document(types))
}

/// Export of all registered types as one JSON Schema document.
pub trait ExportTypesExt {
    /// The registered types, in the order in which the registry yields them.
    spec fn registered_types(&self) -> Seq<TypeRegistrationView>;

    /// Appends the pretty-printed document of all registered types to
    /// `writer` and returns how many types it holds. The export of a
    /// well-formed registry always succeeds, and the registry is not changed.
    fn export_types(&mut self, writer: &mut Vec<u8>) -> (outcome: Result<usize, ExportError>)
        requires
            well_formed_types(old(self).registered_types()),
        ensures
            final(self).registered_types() == old(self).registered_types(),
            outcome is Ok,
            outcome matches Ok(count) ==> exported(
                old(self).registered_types(),
                old(writer)@,
                final(writer)@,
                count,
            ),
    ;
}

impl ExportTypesExt for TypeRegistry {
    open spec fn registered_types(&self) -> Seq<TypeRegistrationView> {
        self@
    }

    fn export_types(&mut self, writer: &mut Vec<u8>) -> (outcome: Result<usize, ExportError>) {
        let nodes = export_nodes(&self.types);
        proof {
            let types = registrations_view(self.types@);
            assert(jsons_of(nodes@).len() == nodes@.len());
            assert(schema_nodes(types).len() == types.len());
            assert forall|i: int| 0 <= i < nodes@.len() implies has_name(
                json_of(#[trigger] nodes@[i]),
            ) by {
                assert(json_of(nodes@[i]) == jsons_of(nodes@)[i]);
                assert(schema_nodes(types)[i] == schema_node(types[i]));
                lemma_node_has_name(types[i]);
            }
        }
        let sorted = sort_nodes(nodes);
        let doc = build_document(sorted);
        write_rendered(json_to_vec_pretty(&doc), self.types.len(), writer)
    }
}

} // verus!
