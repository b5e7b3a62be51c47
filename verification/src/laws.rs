//! What holds of every chain of layers.

use crate::config_bag::{folded, Storable, StoreAppend, StoreReplace};
use crate::layers::{
    accumulated, applied, applied_all, layered, lookup, provenance, stored_in, with_point,
    with_series, with_stored, LayerView, Mutation, SourceRecord,
};
use crate::value::{ConfigValue, Value};
use vstd::prelude::*;

verus! {

/// Shadowing: the answer of a point lookup is the entry of the newest layer
/// that has one for the kind. A value there is the answer; an explicit unset
/// there means absence, whatever the older layers hold.
pub proof fn lemma_newest_opinion_decides(layers: Seq<LayerView>, kind: u64, i: int)
    requires
        0 <= i < layers.len(),
        layers[i].points.contains_key(kind),
        forall|j: int| 0 <= j < i ==> !layers[j].points.contains_key(kind),
    ensures
        lookup(layers, kind) == match layers[i].points[kind] {
            Value::Assigned(value) => Some(value),
            Value::ExplicitlyUnset => None,
        },
    decreases i,
{
    if i > 0 {
        let rest = layers.skip(1);
        assert(rest[i - 1] == layers[i]);
        assert forall|j: int| 0 <= j < i - 1 implies !rest[j].points.contains_key(kind) by {
            assert(rest[j] == layers[j + 1]);
        }
        lemma_newest_opinion_decides(rest, kind, i - 1);
    }
}

/// A kind that no layer mentions has no value.
pub proof fn lemma_unmentioned_is_absent(layers: Seq<LayerView>, kind: u64)
    requires
        forall|j: int| 0 <= j < layers.len() ==> !layers[j].points.contains_key(kind),
    ensures
        lookup(layers, kind) is None,
    decreases layers.len(),
{
    if layers.len() > 0 {
        let rest = layers.skip(1);
        assert forall|j: int| 0 <= j < rest.len() implies !rest[j].points.contains_key(kind) by {
            assert(rest[j] == layers[j + 1]);
        }
        lemma_unmentioned_is_absent(rest, kind);
    }
}

/// Whether layer `i` gives `kind` the value `value` and no newer layer says
/// anything about the kind.
pub open spec fn gives(layers: Seq<LayerView>, kind: u64, value: ConfigValue, i: int) -> bool {
    &&& 0 <= i < layers.len()
    &&& layers[i].points.contains_key(kind)
    &&& layers[i].points[kind] == Value::Assigned(value)
    &&& forall|j: int| 0 <= j < i ==> !layers[j].points.contains_key(kind)
}

/// A point lookup has a value exactly if some layer gives the kind that
/// value and no newer layer says anything about the kind.
pub proof fn lemma_lookup_is_newest_opinion(layers: Seq<LayerView>, kind: u64, value: ConfigValue)
    ensures
        lookup(layers, kind) == Some(value) <==> exists|i: int| gives(layers, kind, value, i),
    decreases layers.len(),
{
    if layers.len() > 0 {
        let rest = layers.skip(1);
        lemma_lookup_is_newest_opinion(rest, kind, value);
        if layers[0].points.contains_key(kind) {
            if lookup(layers, kind) == Some(value) {
                assert(gives(layers, kind, value, 0));
            }
            if exists|i: int| gives(layers, kind, value, i) {
                let i = choose|i: int| gives(layers, kind, value, i);
                assert(i == 0);
            }
        } else {
            if lookup(layers, kind) == Some(value) {
                let i = choose|i: int| gives(rest, kind, value, i);
                assert(rest[i] == layers[i + 1]);
                assert forall|j: int| 0 <= j < i + 1 implies !layers[j].points.contains_key(
                    kind,
                ) by {
                    if j > 0 {
                        assert(rest[j - 1] == layers[j]);
                    }
                }
                assert(gives(layers, kind, value, i + 1));
            }
            if exists|i: int| gives(layers, kind, value, i) {
                let i = choose|i: int| gives(layers, kind, value, i);
                assert(i > 0);
                assert(rest[i - 1] == layers[i]);
                assert forall|j: int| 0 <= j < i - 1 implies !rest[j].points.contains_key(
                    kind,
                ) by {
                    assert(rest[j] == layers[j + 1]);
                }
                assert(gives(rest, kind, value, i - 1));
            }
        }
    }
}

/// What was put is what is got, and a layer that was just added changes no
/// answer: it has no entry of its own.
pub proof fn lemma_put_then_get(layers: Seq<LayerView>, kind: u64, value: ConfigValue, other: u64)
    requires
        layers.len() > 0,
        other != kind,
    ensures
        lookup(with_point(layers, kind, Value::Assigned(value)), kind) == Some(value),
        lookup(with_point(layers, kind, Value::ExplicitlyUnset), kind) is None,
        lookup(with_point(layers, kind, Value::Assigned(value)), other) == lookup(layers, other),
        lookup(with_point(layers, kind, Value::ExplicitlyUnset), other) == lookup(layers, other),
{
    let put = with_point(layers, kind, Value::Assigned(value));
    let unset = with_point(layers, kind, Value::ExplicitlyUnset);
    assert(put.skip(1) =~= layers.skip(1));
    assert(unset.skip(1) =~= layers.skip(1));
}

/// A new, empty layer is transparent to both lookups.
pub proof fn lemma_new_layer_is_transparent(name: &'static str, below: Seq<LayerView>, kind: u64)
    ensures
        lookup(layered(name, below), kind) == lookup(below, kind),
        accumulated(layered(name, below), kind) == accumulated(below, kind),
{
    assert(layered(name, below).skip(1) =~= below);
    assert(accumulated(below, kind) + stored_in(layered(name, below)[0], kind) =~= accumulated(
        below,
        kind,
    ));
}

/// Every write goes to the head layer: the layers below it are what they were.
pub proof fn lemma_write_keeps_older_layers(layers: Seq<LayerView>, mutation: Mutation)
    requires
        layers.len() > 0,
    ensures
        applied(layers, mutation).len() == layers.len(),
        applied(layers, mutation).skip(1) == layers.skip(1),
        applied(layers, mutation)[0].name == layers[0].name,
{
    assert(applied(layers, mutation).skip(1) =~= layers.skip(1));
}

/// Isolation under freeze: whatever is written to a bag that was derived
/// from frozen layers, by however many writes, the frozen layers are what
/// they were, and so is the answer of every lookup on them.
pub proof fn lemma_frozen_layers_are_isolated(
    frozen: Seq<LayerView>,
    name: &'static str,
    mutations: Seq<Mutation>,
    kind: u64,
)
    ensures
        applied_all(layered(name, frozen), mutations).len() == frozen.len() + 1,
        applied_all(layered(name, frozen), mutations).skip(1) == frozen,
        lookup(applied_all(layered(name, frozen), mutations).skip(1), kind) == lookup(frozen, kind),
        accumulated(applied_all(layered(name, frozen), mutations).skip(1), kind) == accumulated(
            frozen,
            kind,
        ),
    decreases mutations.len(),
{
    if mutations.len() == 0 {
        assert(layered(name, frozen).skip(1) =~= frozen);
    } else {
        lemma_frozen_layers_are_isolated(frozen, name, mutations.drop_last(), kind);
        lemma_write_keeps_older_layers(
            applied_all(layered(name, frozen), mutations.drop_last()),
            mutations.last(),
        );
    }
}

/// A stored value comes last in what the chain has accumulated for its kind,
/// and leaves what was accumulated for every other kind as it was.
pub proof fn lemma_store_appends(layers: Seq<LayerView>, kind: u64, value: ConfigValue, other: u64)
    requires
        layers.len() > 0,
        other != kind,
    ensures
        accumulated(with_stored(layers, kind, value), kind) == accumulated(layers, kind).push(
            value,
        ),
        accumulated(with_stored(layers, kind, value), other) == accumulated(layers, other),
        accumulated(with_series(layers, kind, Value::ExplicitlyUnset), kind) == accumulated(
            layers.skip(1),
            kind,
        ),
{
    let stored = with_stored(layers, kind, value);
    let cleared = with_series(layers, kind, Value::ExplicitlyUnset);
    assert(stored.skip(1) =~= layers.skip(1));
    assert(cleared.skip(1) =~= layers.skip(1));
    assert(accumulated(stored, kind) =~= accumulated(layers, kind).push(value));
    assert(accumulated(cleared, kind) =~= accumulated(layers.skip(1), kind));
}

/// Append ordering: under the appending policy `load` hands back every value
/// that was stored, the oldest layer's first and within a layer in call order.
pub proof fn lemma_append_keeps_every_value(values: Seq<ConfigValue>, accum: Vec<&ConfigValue>)
    requires
        folded::<StoreAppend>(values, accum),
    ensures
        accum@.len() == values.len(),
        forall|i: int| 0 <= i < values.len() ==> *accum@[i] == values[i],
    decreases values.len(),
{
    if values.len() > 0 {
        let before = choose|before: Vec<&ConfigValue>|
            folded::<StoreAppend>(values.drop_last(), before) && #[trigger] call_ensures(
                StoreAppend::merge,
                (before, &values.last()),
                accum,
            );
        lemma_append_keeps_every_value(values.drop_last(), before);
        assert forall|i: int| 0 <= i < values.len() implies *accum@[i] == values[i] by {
            if i < values.len() - 1 {
                assert(accum@[i] == before@[i]);
                assert(values.drop_last()[i] == values[i]);
            }
        }
    }
}

/// Latest wins: under the replacing policy `load` hands back the value that
/// was stored last, and nothing where none was stored.
pub proof fn lemma_replace_keeps_the_latest(values: Seq<ConfigValue>, accum: Option<&ConfigValue>)
    requires
        folded::<StoreReplace>(values, accum),
    ensures
        accum == if values.len() == 0 {
            None
        } else {
            Some(&values.last())
        },
{
}

/// The trail of a point lookup has one record for every layer, and the
/// answer of the lookup can be read off it: the first record that is not an
/// inheritance decides.
pub proof fn lemma_trail_explains_lookup(layers: Seq<LayerView>, kind: u64, i: int)
    requires
        0 <= i < layers.len(),
        !(provenance(layers, kind)[i] is Inherit),
        forall|j: int| 0 <= j < i ==> provenance(layers, kind)[j] is Inherit,
    ensures
        provenance(layers, kind).len() == layers.len(),
        provenance(layers, kind)[i] is Unset ==> lookup(layers, kind) is None,
        provenance(layers, kind)[i] matches SourceRecord::Assigned { value, .. } ==> lookup(
            layers,
            kind,
        ) is Some && lookup(layers, kind).unwrap().text() == value,
{
    assert forall|j: int| 0 <= j < i implies !layers[j].points.contains_key(kind) by {
        assert(provenance(layers, kind)[j] is Inherit);
    }
    lemma_newest_opinion_decides(layers, kind, i);
}

/// A trail of inheritances only belongs to a lookup without a value.
pub proof fn lemma_trail_of_inheritance_is_absence(layers: Seq<LayerView>, kind: u64)
    requires
        forall|j: int| 0 <= j < layers.len() ==> provenance(layers, kind)[j] is Inherit,
    ensures
        lookup(layers, kind) is None,
{
    assert forall|j: int| 0 <= j < layers.len() implies !layers[j].points.contains_key(kind) by {
        assert(provenance(layers, kind)[j] is Inherit);
    }
    lemma_unmentioned_is_absent(layers, kind);
}

/// The bridge for structured values: fields written as point values of
/// distinct kinds into one layer are all read back as they were written,
/// whatever the layers below hold.
pub proof fn lemma_fields_read_back(
    layers: Seq<LayerView>,
    kinds: Seq<u64>,
    values: Seq<ConfigValue>,
    i: int,
)
    requires
        layers.len() > 0,
        kinds.len() == values.len(),
        forall|a: int, b: int| 0 <= a < b < kinds.len() ==> kinds[a] != kinds[b],
        0 <= i < kinds.len(),
    ensures
        lookup(applied_all(layers, field_writes(kinds, values)), kinds[i]) == Some(values[i]),
    decreases kinds.len(),
{
    let writes = field_writes(kinds, values);
    let last = kinds.len() - 1;
    let before = applied_all(layers, writes.drop_last());
    assert(writes.drop_last() =~= field_writes(kinds.drop_last(), values.drop_last()));
    lemma_writes_keep_head(layers, writes.drop_last());
    if i == last {
        let other: u64 = if kinds[last] == 0 {
            1
        } else {
            0
        };
        lemma_put_then_get(before, kinds[last], values[last], other);
    } else {
        lemma_fields_read_back(layers, kinds.drop_last(), values.drop_last(), i);
        lemma_put_then_get(before, kinds[last], values[last], kinds[i]);
    }
}

/// The writes that put each of `values` under the kind of the same index.
pub open spec fn field_writes(kinds: Seq<u64>, values: Seq<ConfigValue>) -> Seq<Mutation>
    recommends
        kinds.len() == values.len(),
{
    Seq::new(kinds.len(), |i: int| Mutation::Put { kind: kinds[i], value: values[i] })
}

/// Writes neither add nor remove a layer.
pub proof fn lemma_writes_keep_head(layers: Seq<LayerView>, mutations: Seq<Mutation>)
    requires
        layers.len() > 0,
    ensures
        applied_all(layers, mutations).len() == layers.len(),
    decreases mutations.len(),
{
    if mutations.len() > 0 {
        lemma_writes_keep_head(layers, mutations.drop_last());
        lemma_write_keeps_older_layers(
            applied_all(layers, mutations.drop_last()),
            mutations.last(),
        );
    }
}

} // verus!
