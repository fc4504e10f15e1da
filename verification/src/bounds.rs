//! Declared numeric bounds of fields: an optional minimum and an optional
//! maximum, looked up by the position of a field and, for a field of an enum
//! variant, the index of the variant.

use vstd::prelude::*;
use crate::json::{json_of, Json};
use serde_json::Value;

verus! {

/// What bounds are declared for: the field at `position` of a struct or a
/// tuple, or of the enum variant at `variant_index`.
pub struct Target {
    pub position: nat,
    pub variant_index: Option<nat>,
}

/// An optional index as a natural number.
pub open spec fn index_view(index: Option<usize>) -> Option<nat> {
    match index {
        Some(i) => Some(i as nat),
        None => None,
    }
}

/// The target named by a field position and an optional variant index.
pub open spec fn target_of(position: usize, variant_index: Option<usize>) -> Target {
    Target { position: position as nat, variant_index: index_view(variant_index) }
}

/// The bounds declared for one field. Each is a JSON number; either may be
/// absent independently of the other.
pub struct Bounds {
    pub minimum: Option<Value>,
    pub maximum: Option<Value>,
}

/// Model of [`Bounds`].
pub struct BoundsView {
    pub minimum: Option<Json>,
    pub maximum: Option<Json>,
}

/// The JSON value that an optional `serde_json::Value` holds.
pub open spec fn optional_json(value: Option<Value>) -> Option<Json> {
    match value {
        Some(v) => Some(json_of(v)),
        None => None,
    }
}

impl View for Bounds {
    type V = BoundsView;

    open spec fn view(&self) -> BoundsView {
        BoundsView { minimum: optional_json(self.minimum), maximum: optional_json(self.maximum) }
    }
}

/// One declaration of a provider: bounds for one target.
pub struct BoundsEntry {
    pub position: usize,
    pub variant_index: Option<usize>,
    pub bounds: Bounds,
}

impl BoundsEntry {
    /// The target that this entry declares bounds for.
    pub open spec fn target(&self) -> Target {
        target_of(self.position, self.variant_index)
    }
}

/// The bounds that a sequence of declarations gives each target: of two
/// declarations for one target, the later one holds.
pub open spec fn declared(entries: Seq<BoundsEntry>) -> Map<Target, BoundsView>
    decreases entries.len(),
{
    if entries.len() == 0 {
        Map::empty()
    } else {
        declared(entries.drop_last()).insert(entries.last().target(), entries.last().bounds@)
    }
}

/// The bounds declared for the fields of one type.
pub struct BoundsProvider {
    pub entries: Vec<BoundsEntry>,
}

impl View for BoundsProvider {
    type V = Map<Target, BoundsView>;

    open spec fn view(&self) -> Map<Target, BoundsView> {
        declared(self.entries@)
    }
}

/// The bounds that an optional provider declares: none where it is absent.
pub open spec fn provided(provider: Option<BoundsProvider>) -> Map<Target, BoundsView> {
    match provider {
        Some(p) => p@,
        None => Map::empty(),
    }
}

/// What a map of bounds reports for a target.
pub open spec fn reported(bounds: Map<Target, BoundsView>, target: Target) -> Option<BoundsView> {
    if bounds.dom().contains(target) {
        Some(bounds[target])
    } else {
        None
    }
}

impl BoundsProvider {
    /// A provider that declares nothing.
    pub fn new() -> (provider: Self)
        ensures
            provider@ == Map::<Target, BoundsView>::empty(),
    {
        BoundsProvider { entries: Vec::new() }
    }

    /// Declares the bounds of one target, in place of what was declared for
    /// it before.
    pub fn declare(
        &mut self,
        position: usize,
        variant_index: Option<usize>,
        minimum: Option<Value>,
        maximum: Option<Value>,
    )
        ensures
            final(self)@ == old(self)@.insert(
                target_of(position, variant_index),
                BoundsView { minimum: optional_json(minimum), maximum: optional_json(maximum) },
            ),
    {
        let entry = BoundsEntry { position, variant_index, bounds: Bounds { minimum, maximum } };
        self.entries.push(entry);
        assert(self.entries@.drop_last() =~= old(self).entries@);
    }

    /// Looks up the bounds declared for a target.
    pub fn get(&self, position: usize, variant_index: Option<usize>) -> (found: Option<&Bounds>)
        ensures
            match found {
                Some(bounds) => reported(self@, target_of(position, variant_index)) == Some(
                    bounds@,
                ),
                None => reported(self@, target_of(position, variant_index)) is None,
            },
    {
        let ghost target = target_of(position, variant_index);
        let mut i: usize = self.entries.len();
        assert(self.entries@.take(i as int) =~= self.entries@);
        while i > 0
            invariant
                i <= self.entries@.len(),
                target == target_of(position, variant_index),
                reported(self@, target) == reported(declared(self.entries@.take(i as int)), target),
            decreases i,
        {
            i -= 1;
            let entry = &self.entries[i];
            assert(self.entries@.take(i + 1).drop_last() =~= self.entries@.take(i as int));
            assert(self.entries@.take(i + 1).last() == self.entries@[i as int]);
            let same_variant = match (entry.variant_index, variant_index) {
                (Some(a), Some(b)) => a == b,
                (None, None) => true,
                _ => false,
            };
            if entry.position == position && same_variant {
                return Some(&entry.bounds);
            }
        }
        None
    }
}

} // verus!
