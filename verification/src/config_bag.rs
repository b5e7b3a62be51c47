//! Layered configuration.
//!
//! A [`ConfigBag`] is a chain of named layers. Only the newest layer, the
//! head, can be written; the older layers are frozen and shared. A point
//! lookup is answered by the newest layer that says anything about the kind
//! asked for; an accumulating lookup folds what every layer stored, oldest
//! layer first.
//!
//! A kind of value is a number fixed at compile time: `bag.put::<REGION>(..)`
//! and `bag.get::<REGION>()` speak of the same kind exactly when `REGION` is
//! the same number.

use crate::layers::{
    accumulated, layered, lookup, provenance, source_of, stored_in, with_point, with_series,
    with_stored, LayerView, SourceRecord,
};
use crate::property_store::{
    get_point, get_series, insert_point, insert_series, new_props, point_entries, remove_series,
    series_entries,
};
use crate::value::{ConfigValue, Value};
use aws_smithy_http::property_bag::PropertyBag;
use std::sync::Arc;
use vstd::prelude::*;

verus! {

/// One named frame of configuration.
#[derive(Debug)]
pub struct Layer {
    name: &'static str,
    props: PropertyBag,
}

impl View for Layer {
    type V = LayerView;

    closed spec fn view(&self) -> LayerView {
        LayerView {
            name: self.name,
            points: point_entries(self.props),
            series: series_entries(self.props),
        }
    }
}

/// The unlocked form of the store: its head layer can be written.
#[must_use]
#[derive(Debug)]
pub struct ConfigBag {
    head: Layer,
    tail: Option<FrozenConfigBag>,
}

/// The locked form of the store: a shared handle to layers that no longer
/// change. A clone shares the layers and copies none.
#[must_use]
#[derive(Debug)]
pub struct FrozenConfigBag(Arc<ConfigBag>);

impl View for ConfigBag {
    type V = Seq<LayerView>;

    /// The layers, newest first.
    closed spec fn view(&self) -> Seq<LayerView> {
        self.layers()
    }
}

impl View for FrozenConfigBag {
    type V = Seq<LayerView>;

    /// The layers, newest first.
    closed spec fn view(&self) -> Seq<LayerView> {
        self.0.layers()
    }
}

/// Why a layer did or did not answer a point lookup.
#[derive(Debug, Clone, PartialEq, Eq)]
pub enum SourceInfo {
    /// The layer gives the kind a value, shown here as text.
    Assigned { layer: &'static str, value: String },
    /// The layer states that the kind has no value.
    Unset { layer: &'static str },
    /// The layer says nothing about the kind and defers to older layers.
    Inherit { layer: &'static str },
}

impl View for SourceInfo {
    type V = SourceRecord;

    open spec fn view(&self) -> SourceRecord {
        match *self {
            SourceInfo::Assigned { layer, value } => SourceRecord::Assigned { layer, value: value@ },
            SourceInfo::Unset { layer } => SourceRecord::Unset { layer },
            SourceInfo::Inherit { layer } => SourceRecord::Inherit { layer },
        }
    }
}

/// The records of a trail, each by its view.
pub open spec fn records(trail: Seq<SourceInfo>) -> Seq<SourceRecord> {
    Seq::new(trail.len(), |i: int| trail[i]@)
}

/// A required kind has no value.
#[derive(Debug, Clone, Copy, PartialEq, Eq)]
pub struct MissingConfiguration {
    /// The kind that was asked for.
    pub kind: u64,
}

/// A structured value that can write itself into a layer of its own.
pub trait Persist {
    /// The name of the layer that holds the value.
    fn layer_name(&self) -> &'static str;

    /// Writes the value into the head of `layer`, as one or more entries.
    fn persist(&self, layer: &mut ConfigBag);
}

/// A structured value that can be read back from a bag.
pub trait Load: Sized {
    /// Reads the value from `bag` by point lookups: the value, `None` where
    /// an optional part of it is absent, or the required kind that is missing.
    fn load(bag: &ConfigBag) -> Result<Option<Self>, MissingConfiguration>;
}

/// A structured value that can be written into a bag and read back from it.
pub trait ConfigLayer: Persist + Load {

}

/// How the values stored for one kind combine into the result of `load`.
pub trait Storable {
    /// The accumulator that `load` hands back. It borrows the stored values.
    type ContainerType<'a>;

    /// The accumulator of no value.
    fn new_accum<'a>() -> Self::ContainerType<'a>;

    /// Folds one more value, newer than all that `accum` has seen, into `accum`.
    fn merge<'a>(accum: Self::ContainerType<'a>, item: &'a ConfigValue) -> Self::ContainerType<'a>;
}

/// Whether `accum` can be what the policy `S` makes of `values`, folded in
/// one by one from the first to the last, starting from the accumulator of
/// no value.
pub open spec fn folded<'a, S: Storable>(values: Seq<ConfigValue>, accum: S::ContainerType<'a>) -> bool
    decreases values.len(),
{
    if values.len() == 0 {
        call_ensures(S::new_accum, (), accum)
    } else {
        exists|before: S::ContainerType<'a>|
            folded::<S>(values.drop_last(), before) && #[trigger] call_ensures(
                S::merge,
                (before, &values.last()),
                accum,
            )
    }
}

/// The policy that keeps only the value stored last.
pub struct StoreReplace;

impl Storable for StoreReplace {
    type ContainerType<'a> = Option<&'a ConfigValue>;

    fn new_accum<'a>() -> (accum: Option<&'a ConfigValue>)
        ensures
            accum is None,
    {
        None
    }

    fn merge<'a>(accum: Option<&'a ConfigValue>, item: &'a ConfigValue) -> (merged: Option<
        &'a ConfigValue,
    >)
        ensures
            merged == Some(item),
    {
        Some(item)
    }
}

/// The policy that keeps every value, in the order in which they were stored.
pub struct StoreAppend;

impl Storable for StoreAppend {
    type ContainerType<'a> = Vec<&'a ConfigValue>;

    fn new_accum<'a>() -> (accum: Vec<&'a ConfigValue>)
        ensures
            accum@.len() == 0,
    {
        Vec::new()
    }

    fn merge<'a>(accum: Vec<&'a ConfigValue>, item: &'a ConfigValue) -> (merged: Vec<
        &'a ConfigValue,
    >)
        ensures
            merged@ == accum@.push(item),
    {
        let mut merged = accum;
        merged.push(item);
        merged
    }
}

/// `Arc::clone`: a second handle to the same value.
#[verifier::external_body]
fn share(shared: &Arc<ConfigBag>) -> (handle: Arc<ConfigBag>)
    ensures
        handle == *shared,
{
    Arc::clone(shared)
}

/// `Arc::try_unwrap`: the value itself where `shared` is the only handle to
/// it, else the handle again.
#[verifier::external_body]
fn unwrap_exclusive(shared: Arc<ConfigBag>) -> (outcome: Result<ConfigBag, Arc<ConfigBag>>)
    ensures
        match outcome {
            Ok(bag) => bag == *shared,
            Err(handle) => handle == shared,
        },
{
    Arc::try_unwrap(shared)
}

fn no_op(bag: &mut ConfigBag)
    ensures
        *final(bag) == *old(bag),
{
}

impl Clone for FrozenConfigBag {
    /// A second handle to the same layers.
    fn clone(&self) -> (handle: Self)
        ensures
            handle == *self,
    {
        FrozenConfigBag(share(&self.0))
    }
}

impl std::ops::Deref for FrozenConfigBag {
    type Target = ConfigBag;

    /// The frozen bag, for reading.
    fn deref(&self) -> (bag: &ConfigBag)
        ensures
            bag@ == self@,
    {
        &self.0
    }
}

impl FrozenConfigBag {
    /// Turns the handle back into a bag whose head can be written, if no
    /// other handle to it exists. `None` tells the caller to add a layer instead.
    pub fn try_modify(self) -> (bag: Option<ConfigBag>)
        ensures
            bag matches Some(unlocked) ==> unlocked@ == self@,
    {
        Self::reclaimed(unwrap_exclusive(self.0))
    }

    /// What the attempt to take a bag out of its handle leaves the caller
    /// with: the bag where the handle was the only one, and nothing where the
    /// bag is still shared.
    pub fn reclaimed(outcome: Result<ConfigBag, Arc<ConfigBag>>) -> (bag: Option<ConfigBag>)
        ensures
            bag == match outcome {
                Ok(unlocked) => Some(unlocked),
                Err(_) => None,
            },
    {
        match outcome {
            Ok(unlocked) => Some(unlocked),
            Err(_) => None,
        }
    }

    /// A bag with a new, empty head layer on top of the frozen layers.
    pub fn add_layer(&self, name: &'static str) -> (bag: ConfigBag)
        ensures
            bag@ == layered(name, self@),
    {
        self.with_fn(name, no_op)
    }

    /// Puts the single layer of `bag` on top of the frozen layers. The layer
    /// keeps its own name; `name` is not used.
    pub fn add_bag_layer(&self, name: &'static str, bag: ConfigBag) -> (joined: ConfigBag)
        requires
            bag@.len() == 1,
        ensures
            joined@ == bag@ + self@,
    {
        proof {
            bag.lemma_split();
        }
        let mut joined = bag;
        joined.tail = Some(self.clone());
        assert(joined@ =~= bag@ + self@);
        joined
    }

    /// A bag with a new head layer, named by `layer` and holding what `layer`
    /// writes into it, on top of the frozen layers.
    pub fn with<P: Persist>(&self, layer: P) -> (bag: ConfigBag)
        ensures
            exists|name: &'static str, fresh: &mut ConfigBag|
                #![trigger call_ensures(P::layer_name, (&layer,), name), call_ensures(P::persist, (&layer, fresh), ())]
                call_ensures(P::layer_name, (&layer,), name) && mut_ref_current(fresh)@ == layered(
                    name,
                    self@,
                ) && call_ensures(P::persist, (&layer, fresh), ()) && bag == mut_ref_future(fresh),
    {
        let mut bag = self.add_layer(layer.layer_name());
        layer.persist(&mut bag);
        bag
    }

    /// A bag with a new head layer called `name` on top of the frozen layers,
    /// after `next` has written to it.
    pub fn with_fn<F: Fn(&mut ConfigBag)>(&self, name: &'static str, next: F) -> (bag: ConfigBag)
        requires
            forall|fresh: &mut ConfigBag|
                mut_ref_current(fresh)@ == layered(name, self@) ==> call_requires(next, (fresh,)),
        ensures
            exists|fresh: &mut ConfigBag|
                mut_ref_current(fresh)@ == layered(name, self@) && #[trigger] call_ensures(
                    next,
                    (fresh,),
                    (),
                ) && bag == mut_ref_future(fresh),
    {
        let new_layer = Layer { name, props: new_props() };
        let mut bag = ConfigBag { head: new_layer, tail: Some(self.clone()) };
        assert(bag@ =~= layered(name, self@));
        next(&mut bag);
        bag
    }
}

impl ConfigBag {
    /// The layers, newest first.
    pub closed spec fn layers(self) -> Seq<LayerView>
        decreases self,
    {
        match self.tail {
            Some(frozen) => seq![self.head@] + frozen.0.layers(),
            None => seq![self.head@],
        }
    }

    /// A bag always has its head layer.
    pub proof fn lemma_has_head(&self)
        ensures
            self@.len() > 0,
    {
        self.lemma_split();
    }

    /// The view is the head layer followed by the layers of the tail.
    proof fn lemma_split(&self)
        ensures
            self@.len() > 0,
            self@[0] == self.head@,
            self@.skip(1) == match self.tail {
                Some(frozen) => frozen@,
                None => Seq::<LayerView>::empty(),
            },
    {
        match self.tail {
            Some(frozen) => {
                assert(self@.skip(1) =~= frozen@);
            },
            None => {
                assert(self@.skip(1) =~= Seq::<LayerView>::empty());
            },
        }
    }

    /// A bag of one empty layer, named "base".
    pub fn base() -> (bag: Self)
        ensures
            bag@ == seq![empty_base()],
    {
        ConfigBag { head: Layer { name: "base", props: new_props() }, tail: None }
    }

    /// Appends `value` to the series that the head layer keeps for `KIND`.
    /// A series that was unset starts anew with `value`.
    pub fn store<const KIND: u64>(&mut self, value: ConfigValue) -> (bag: &mut Self)
        ensures
            bag@ == with_stored(old(self)@, KIND, value),
            *final(self) == *final(bag),
    {
        proof {
            self.lemma_split();
        }
        match remove_series::<KIND>(&mut self.head.props) {
            Some(Value::Assigned(existing)) => {
                let mut values = existing;
                values.push(value);
                insert_series::<KIND>(&mut self.head.props, Value::Assigned(values));
            },
            _ => {
                let mut values = Vec::new();
                values.push(value);
                insert_series::<KIND>(&mut self.head.props, Value::Assigned(values));
                assert(values@ =~= stored_in(old(self)@[0], KIND).push(value));
            },
        }
        assert(self.head@.series =~= old(self).head@.series.insert(
            KIND,
            Value::Assigned(stored_in(old(self)@[0], KIND).push(value)),
        ));
        assert(self@ =~= with_stored(old(self)@, KIND, value));
        self
    }

    /// Stores `value` where there is one; unsets the series that the head
    /// layer keeps for `KIND` where there is none.
    pub fn store_or_unset<const KIND: u64>(&mut self, value: Option<ConfigValue>) -> (bag:
        &mut Self)
        ensures
            bag@ == match value {
                Some(stored) => with_stored(old(self)@, KIND, stored),
                None => with_series(old(self)@, KIND, Value::ExplicitlyUnset),
            },
            *final(self) == *final(bag),
    {
        match value {
            Some(stored) => self.store::<KIND>(stored),
            None => {
                insert_series::<KIND>(&mut self.head.props, Value::ExplicitlyUnset);
                assert(self@ =~= with_series(old(self)@, KIND, Value::ExplicitlyUnset));
                self
            },
        }
    }

    /// Folds every value stored for `KIND`, the oldest layer's first and
    /// within a layer in call order, by the policy `S`.
    pub fn load<'a, S: Storable, const KIND: u64>(&'a self) -> (accum: S::ContainerType<'a>)
        ensures
            folded::<S>(accumulated(self@, KIND), accum),
        decreases self,
    {
        proof {
            self.lemma_split();
        }
        let mut item = match &self.tail {
            Some(frozen) => frozen.0.load::<S, KIND>(),
            None => {
                assert(accumulated(self@.skip(1), KIND) =~= Seq::<ConfigValue>::empty());
                S::new_accum()
            },
        };
        let ghost older = accumulated(self@.skip(1), KIND);
        match get_series::<KIND>(&self.head.props) {
            Some(Value::Assigned(values)) => {
                let mut i: usize = 0;
                assert(older + values@.take(0) =~= older);
                while i < values.len()
                    invariant
                        i <= values.len(),
                        folded::<S>(older + values@.take(i as int), item),
                    decreases values.len() - i,
                {
                    let ghost before = item;
                    item = S::merge(item, &values[i]);
                    i += 1;
                    proof {
                        let grown = older + values@.take(i as int);
                        assert(grown.drop_last() =~= older + values@.take(i as int - 1));
                        assert(grown.last() == values@[i as int - 1]);
                        assert(call_ensures(S::merge, (before, &grown.last()), item));
                    }
                }
                assert(values@.take(i as int) =~= values@);
            },
            _ => {
                assert(older + stored_in(self@[0], KIND) =~= older);
            },
        }
        item
    }

    /// The value of `KIND`, if the chain gives it one.
    pub fn get<const KIND: u64>(&self) -> (found: Option<&ConfigValue>)
        ensures
            found == match lookup(self@, KIND) {
                Some(value) => Some(&value),
                None => None,
            },
        decreases self,
    {
        proof {
            self.lemma_split();
        }
        match get_point::<KIND>(&self.head.props) {
            Some(Value::Assigned(value)) => Some(value),
            Some(Value::ExplicitlyUnset) => None,
            None => match &self.tail {
                Some(frozen) => frozen.0.get::<KIND>(),
                None => {
                    assert(lookup(self@.skip(1), KIND) is None);
                    None
                },
            },
        }
    }

    /// The value of `KIND`, or the report that it is missing.
    pub fn require<const KIND: u64>(&self) -> (found: Result<&ConfigValue, MissingConfiguration>)
        ensures
            found == match lookup(self@, KIND) {
                Some(value) => Ok::<&ConfigValue, MissingConfiguration>(&value),
                None => Err::<&ConfigValue, MissingConfiguration>(
                    MissingConfiguration { kind: KIND },
                ),
            },
    {
        match self.get::<KIND>() {
            Some(value) => Ok(value),
            None => Err(MissingConfiguration { kind: KIND }),
        }
    }

    /// Gives `KIND` the value `value` in the head layer.
    pub fn put<const KIND: u64>(&mut self, value: ConfigValue) -> (bag: &mut Self)
        ensures
            bag@ == with_point(old(self)@, KIND, Value::Assigned(value)),
            *final(self) == *final(bag),
    {
        insert_point::<KIND>(&mut self.head.props, Value::Assigned(value));
        assert(self@ =~= with_point(old(self)@, KIND, Value::Assigned(value)));
        self
    }

    /// States in the head layer that `KIND` has no value.
    pub fn unset<const KIND: u64>(&mut self) -> (bag: &mut Self)
        ensures
            bag@ == with_point(old(self)@, KIND, Value::ExplicitlyUnset),
            *final(self) == *final(bag),
    {
        insert_point::<KIND>(&mut self.head.props, Value::ExplicitlyUnset);
        assert(self@ =~= with_point(old(self)@, KIND, Value::ExplicitlyUnset));
        self
    }

    /// Locks the bag: no layer of it changes any more, and the handle can be shared.
    pub fn freeze(self) -> (frozen: FrozenConfigBag)
        ensures
            frozen@ == self@,
    {
        FrozenConfigBag::from(self)
    }

    /// Freezes the bag and puts a new head layer called `name` on top, after
    /// `next` has written to it.
    pub fn with_fn<F: Fn(&mut ConfigBag)>(self, name: &'static str, next: F) -> (bag: ConfigBag)
        requires
            forall|fresh: &mut ConfigBag|
                mut_ref_current(fresh)@ == layered(name, self@) ==> call_requires(next, (fresh,)),
        ensures
            exists|fresh: &mut ConfigBag|
                mut_ref_current(fresh)@ == layered(name, self@) && #[trigger] call_ensures(
                    next,
                    (fresh,),
                    (),
                ) && bag == mut_ref_future(fresh),
    {
        self.freeze().with_fn(name, next)
    }

    /// Freezes the bag and puts a new head layer on top, named by `layer` and
    /// holding what `layer` writes into it.
    pub fn with<P: Persist>(self, layer: P) -> (bag: ConfigBag)
        ensures
            exists|name: &'static str, fresh: &mut ConfigBag|
                #![trigger call_ensures(P::layer_name, (&layer,), name), call_ensures(P::persist, (&layer, fresh), ())]
                call_ensures(P::layer_name, (&layer,), name) && mut_ref_current(fresh)@ == layered(
                    name,
                    self@,
                ) && call_ensures(P::persist, (&layer, fresh), ()) && bag == mut_ref_future(fresh),
    {
        self.freeze().with(layer)
    }

    /// Freezes the bag and puts a new, empty head layer called `name` on top.
    pub fn add_layer(self, name: &'static str) -> (bag: ConfigBag)
        ensures
            bag@ == layered(name, self@),
    {
        self.freeze().add_layer(name)
    }

    /// The point lookup of `get`, with its trail: one record for every layer
    /// of the chain, the head's first, is appended to `source_trail`.
    pub fn sourced_get<const KIND: u64>(&self, source_trail: &mut Vec<SourceInfo>) -> (found:
        Option<&ConfigValue>)
        ensures
            found == match lookup(self@, KIND) {
                Some(value) => Some(&value),
                None => None,
            },
            final(source_trail)@.len() == old(source_trail)@.len() + self@.len(),
            final(source_trail)@.take(old(source_trail)@.len() as int) == old(source_trail)@,
            records(final(source_trail)@.skip(old(source_trail)@.len() as int)) == provenance(
                self@,
                KIND,
            ),
        decreases self,
    {
        proof {
            self.lemma_split();
        }
        let bag = &self.head;
        let entry = get_point::<KIND>(&bag.props);
        let source = match entry {
            Some(Value::ExplicitlyUnset) => SourceInfo::Unset { layer: bag.name },
            Some(Value::Assigned(value)) => SourceInfo::Assigned {
                layer: bag.name,
                value: value.describe(),
            },
            None => SourceInfo::Inherit { layer: bag.name },
        };
        assert(source@ == source_of(self@[0], KIND));
        source_trail.push(source);
        let ghost before = old(source_trail)@.len() as int;
        let ghost pushed = source_trail@;
        let inner_item = match &self.tail {
            Some(frozen) => frozen.0.sourced_get::<KIND>(source_trail),
            None => {
                assert(lookup(self@.skip(1), KIND) is None);
                None
            },
        };
        proof {
            let after = source_trail@;
            assert(after.take(before + 1) == pushed);
            assert(after.take(before) =~= old(source_trail)@);
            assert(after[before] == after.take(before + 1)[before]);
            assert forall|i: int| 0 <= i < self@.len() implies records(after.skip(before))[i]
                == provenance(self@, KIND)[i] by {
                if i > 0 {
                    assert(after.skip(before)[i] == after.skip(before + 1)[i - 1]);
                    assert(records(after.skip(before + 1))[i - 1] == provenance(
                        self@.skip(1),
                        KIND,
                    )[i - 1]);
                }
            }
            assert(records(after.skip(before)) =~= provenance(self@, KIND));
        }
        match entry {
            Some(Value::ExplicitlyUnset) => None,
            Some(Value::Assigned(value)) => Some(value),
            None => inner_item,
        }
    }
}

impl From<ConfigBag> for FrozenConfigBag {
    /// Locks `bag`.
    fn from(bag: ConfigBag) -> (frozen: FrozenConfigBag) {
        FrozenConfigBag(Arc::new(bag))
    }
}

impl vstd::std_specs::convert::FromSpecImpl<ConfigBag> for FrozenConfigBag {
    open spec fn obeys_from_spec() -> bool {
        true
    }

    closed spec fn from_spec(bag: ConfigBag) -> FrozenConfigBag {
        FrozenConfigBag(Arc::new(bag))
    }
}

impl Default for ConfigBag {
    /// The base bag.
    fn default() -> (bag: Self)
        ensures
            bag@ == seq![empty_base()],
    {
        ConfigBag::base()
    }
}

/// The single layer of a base bag: empty and named "base".
pub open spec fn empty_base() -> LayerView {
    crate::layers::empty_layer("base")
}

} // verus!
