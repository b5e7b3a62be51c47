//! The type map that backs one layer, and what is taken on trust about it.
//!
//! A layer keeps its entries in a `PropertyBag`, which holds at most one value
//! per Rust type. Each kind of configuration value gets two types of its own,
//! one for its point entry and one for its series, so the bag's contents are
//! two maps from kinds to entries. Nothing in this file is proved: the
//! contracts restate what the bag's methods do.

use crate::value::{ConfigValue, Value};
use aws_smithy_http::property_bag::PropertyBag;
use vstd::prelude::*;

verus! {

#[verifier::external_type_specification]
#[verifier::external_body]
pub struct ExPropertyBag(PropertyBag);

/// The type under which a bag holds the point entry of kind `KIND`.
struct PointSlot<const KIND: u64>(Value<ConfigValue>);

/// The type under which a bag holds the series of kind `KIND`.
struct SeriesSlot<const KIND: u64>(Value<Vec<ConfigValue>>);

/// Point entries by kind.
pub type PointMap = Map<u64, Value<ConfigValue>>;

/// Series by kind, each in the order in which its values were stored.
pub type SeriesMap = Map<u64, Value<Seq<ConfigValue>>>;

/// The point entries that `props` holds: kind `k` is mapped to the content of
/// the bag's `PointSlot<k>`, and to nothing where the bag has none.
pub uninterp spec fn point_entries(props: PropertyBag) -> Map<u64, Value<ConfigValue>>;

/// The series that `props` holds: kind `k` is mapped to the content of the
/// bag's `SeriesSlot<k>`, and to nothing where the bag has none.
pub uninterp spec fn series_entries(props: PropertyBag) -> Map<u64, Value<Seq<ConfigValue>>>;

/// A series entry as the sequence of values it holds.
pub open spec fn series_view(entry: Value<Vec<ConfigValue>>) -> Value<Seq<ConfigValue>> {
    match entry {
        Value::Assigned(values) => Value::Assigned(values@),
        Value::ExplicitlyUnset => Value::ExplicitlyUnset,
    }
}

/// `PropertyBag::new`: the new bag holds no entry of any type.
#[verifier::external_body]
pub(crate) fn new_props() -> (props: PropertyBag)
    ensures
        point_entries(props) == PointMap::empty(),
        series_entries(props) == SeriesMap::empty(),
{
    PropertyBag::new()
}

/// `PropertyBag::insert` of a `PointSlot<KIND>`: the entry of that type is
/// replaced or added, every entry of another type stays.
#[verifier::external_body]
pub(crate) fn insert_point<const KIND: u64>(props: &mut PropertyBag, entry: Value<ConfigValue>)
    ensures
        point_entries(*final(props)) == point_entries(*old(props)).insert(KIND, entry),
        series_entries(*final(props)) == series_entries(*old(props)),
{
    props.insert(PointSlot::<KIND>(entry));
}

/// `PropertyBag::get` of a `PointSlot<KIND>`: a reference to the entry of that
/// type, if the bag holds one.
#[verifier::external_body]
pub(crate) fn get_point<const KIND: u64>(props: &PropertyBag) -> (entry: Option<
    &Value<ConfigValue>,
>)
    ensures
        entry.is_some() == point_entries(*props).contains_key(KIND),
        entry matches Some(found) ==> *found == point_entries(*props)[KIND],
{
    props.get::<PointSlot<KIND>>().map(|slot| &slot.0)
}

/// `PropertyBag::insert` of a `SeriesSlot<KIND>`: the entry of that type is
/// replaced or added, every entry of another type stays.
#[verifier::external_body]
pub(crate) fn insert_series<const KIND: u64>(
    props: &mut PropertyBag,
    entry: Value<Vec<ConfigValue>>,
)
    ensures
        series_entries(*final(props)) == series_entries(*old(props)).insert(
            KIND,
            series_view(entry),
        ),
        point_entries(*final(props)) == point_entries(*old(props)),
{
    props.insert(SeriesSlot::<KIND>(entry));
}

/// `PropertyBag::get` of a `SeriesSlot<KIND>`: a reference to the entry of
/// that type, if the bag holds one.
#[verifier::external_body]
pub(crate) fn get_series<const KIND: u64>(props: &PropertyBag) -> (entry: Option<
    &Value<Vec<ConfigValue>>,
>)
    ensures
        entry.is_some() == series_entries(*props).contains_key(KIND),
        entry matches Some(found) ==> series_view(*found) == series_entries(*props)[KIND],
{
    props.get::<SeriesSlot<KIND>>().map(|slot| &slot.0)
}

/// `PropertyBag::remove` of a `SeriesSlot<KIND>`: the entry of that type
/// leaves the bag and is handed back, every entry of another type stays.
#[verifier::external_body]
pub(crate) fn remove_series<const KIND: u64>(props: &mut PropertyBag) -> (entry: Option<
    Value<Vec<ConfigValue>>,
>)
    ensures
        entry.is_some() == series_entries(*old(props)).contains_key(KIND),
        entry matches Some(found) ==> series_view(found) == series_entries(*old(props))[KIND],
        series_entries(*final(props)) == series_entries(*old(props)).remove(KIND),
        point_entries(*final(props)) == point_entries(*old(props)),
{
    props.remove::<SeriesSlot<KIND>>().map(|slot| slot.0)
}

} // verus!
