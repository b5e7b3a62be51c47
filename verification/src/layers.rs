//! The mathematical model of a chain of configuration layers.
//!
//! A chain is a sequence of layers, newest first: index 0 is the head, the
//! only layer that can still be written, and the last index is the oldest
//! layer. Every contract of the store is stated over this model.

use crate::property_store::{PointMap, SeriesMap};
use crate::value::{ConfigValue, Value};
use vstd::prelude::*;

verus! {

/// What a layer holds.
pub struct LayerView {
    /// The layer's name. It serves diagnostics and identifies nothing.
    pub name: &'static str,
    /// The point entries, by kind. A kind has at most one.
    pub points: PointMap,
    /// The stored series, by kind, each in the order of the calls that stored it.
    pub series: SeriesMap,
}

/// Why a layer did or did not answer a point lookup.
pub enum SourceRecord {
    /// The layer gives the kind a value, shown here as text.
    Assigned { layer: &'static str, value: Seq<char> },
    /// The layer states that the kind has no value.
    Unset { layer: &'static str },
    /// The layer says nothing about the kind and defers to older layers.
    Inherit { layer: &'static str },
}

/// A layer that holds nothing.
pub open spec fn empty_layer(name: &'static str) -> LayerView {
    LayerView { name, points: Map::empty(), series: Map::empty() }
}

/// The chain that a new, empty layer called `name` makes on top of `below`.
pub open spec fn layered(name: &'static str, below: Seq<LayerView>) -> Seq<LayerView> {
    seq![empty_layer(name)] + below
}

/// The point lookup: the newest layer that has any entry for `kind` decides.
/// A value there is the answer, an explicit unset there means absence, and
/// so does a chain in which no layer mentions the kind.
pub open spec fn lookup(layers: Seq<LayerView>, kind: u64) -> Option<ConfigValue>
    decreases layers.len(),
{
    if layers.len() == 0 {
        None
    } else if layers[0].points.contains_key(kind) {
        match layers[0].points[kind] {
            Value::Assigned(value) => Some(value),
            Value::ExplicitlyUnset => None,
        }
    } else {
        lookup(layers.skip(1), kind)
    }
}

/// What one layer contributes to the trail of a point lookup for `kind`.
pub open spec fn source_of(layer: LayerView, kind: u64) -> SourceRecord {
    if layer.points.contains_key(kind) {
        match layer.points[kind] {
            Value::Assigned(value) => SourceRecord::Assigned {
                layer: layer.name,
                value: value.text(),
            },
            Value::ExplicitlyUnset => SourceRecord::Unset { layer: layer.name },
        }
    } else {
        SourceRecord::Inherit { layer: layer.name }
    }
}

/// The trail of a point lookup for `kind`: one record for every layer of the
/// chain, the head's first.
pub open spec fn provenance(layers: Seq<LayerView>, kind: u64) -> Seq<SourceRecord> {
    Seq::new(layers.len(), |i: int| source_of(layers[i], kind))
}

/// The values that one layer stored for `kind`, in call order. A layer
/// without a series for the kind, or with the series unset, stored none.
pub open spec fn stored_in(layer: LayerView, kind: u64) -> Seq<ConfigValue> {
    if layer.series.contains_key(kind) {
        match layer.series[kind] {
            Value::Assigned(values) => values,
            Value::ExplicitlyUnset => Seq::empty(),
        }
    } else {
        Seq::empty()
    }
}

/// Every value stored for `kind` anywhere in the chain: the oldest layer's
/// first, and within a layer in call order.
pub open spec fn accumulated(layers: Seq<LayerView>, kind: u64) -> Seq<ConfigValue>
    decreases layers.len(),
{
    if layers.len() == 0 {
        Seq::empty()
    } else {
        accumulated(layers.skip(1), kind) + stored_in(layers[0], kind)
    }
}

/// `layers` with the point entry for `kind` in its head replaced by `entry`.
pub open spec fn with_point(layers: Seq<LayerView>, kind: u64, entry: Value<ConfigValue>) -> Seq<
    LayerView,
>
    recommends
        layers.len() > 0,
{
    layers.update(0, LayerView { points: layers[0].points.insert(kind, entry), ..layers[0] })
}

/// `layers` with the series for `kind` in its head replaced by `entry`.
pub open spec fn with_series(
    layers: Seq<LayerView>,
    kind: u64,
    entry: Value<Seq<ConfigValue>>,
) -> Seq<LayerView>
    recommends
        layers.len() > 0,
{
    layers.update(0, LayerView { series: layers[0].series.insert(kind, entry), ..layers[0] })
}

/// `layers` after one more value was stored for `kind` in its head.
pub open spec fn with_stored(layers: Seq<LayerView>, kind: u64, value: ConfigValue) -> Seq<
    LayerView,
>
    recommends
        layers.len() > 0,
{
    with_series(layers, kind, Value::Assigned(stored_in(layers[0], kind).push(value)))
}

/// One write to a bag. Every write goes to the head layer.
pub enum Mutation {
    /// Give the kind a point value.
    Put { kind: u64, value: ConfigValue },
    /// State that the kind has no point value.
    Unset { kind: u64 },
    /// Append a value to the kind's series.
    Store { kind: u64, value: ConfigValue },
    /// Unset the kind's series.
    Clear { kind: u64 },
}

/// `layers` after the write `mutation`.
pub open spec fn applied(layers: Seq<LayerView>, mutation: Mutation) -> Seq<LayerView>
    recommends
        layers.len() > 0,
{
    match mutation {
        Mutation::Put { kind, value } => with_point(layers, kind, Value::Assigned(value)),
        Mutation::Unset { kind } => with_point(layers, kind, Value::ExplicitlyUnset),
        Mutation::Store { kind, value } => with_stored(layers, kind, value),
        Mutation::Clear { kind } => with_series(layers, kind, Value::ExplicitlyUnset),
    }
}

/// `layers` after the writes `mutations`, made in order.
pub open spec fn applied_all(layers: Seq<LayerView>, mutations: Seq<Mutation>) -> Seq<LayerView>
    recommends
        layers.len() > 0,
    decreases mutations.len(),
{
    if mutations.len() == 0 {
        layers
    } else {
        applied(applied_all(layers, mutations.drop_last()), mutations.last())
    }
}

} // verus!
