use layered_config::config_bag::{
    ConfigBag, ConfigLayer, FrozenConfigBag, Load, MissingConfiguration, Persist, SourceInfo, Storable,
    StoreAppend, StoreReplace,
};
use layered_config::value::ConfigValue;
use std::sync::Arc;

const PROP1: u64 = 1;
const PROP2: u64 = 2;
const PROP3: u64 = 3;
const PROP4: u64 = 4;
const REGION: u64 = 10;
const SIGNING_NAME: u64 = 11;
const CUSTOM_INFO: u64 = 12;
const FIELD_A: u64 = 20;
const FIELD_B: u64 = 21;
const INTERCEPTOR: u64 = 30;
const TIMEOUT: u64 = 31;

fn text(s: &str) -> ConfigValue {
    ConfigValue::Text(s.to_string())
}

#[test]
fn layered_property_bag() {
    let layer_a = |bag: &mut ConfigBag| {
        bag.put::<PROP1>(ConfigValue::Marker);
    };

    let layer_b = |bag: &mut ConfigBag| {
        bag.put::<PROP2>(ConfigValue::Marker);
    };

    let mut base_bag = ConfigBag::base()
        .with_fn("a", layer_a)
        .with_fn("b", layer_b);
    base_bag.put::<PROP3>(ConfigValue::Marker);
    assert!(base_bag.get::<PROP1>().is_some());

    let layer_c = |bag: &mut ConfigBag| {
        bag.put::<PROP4>(ConfigValue::Marker);
        bag.unset::<PROP3>();
    };

    let base_bag = base_bag.freeze();
    let final_bag = base_bag.with_fn("c", layer_c);

    assert!(final_bag.get::<PROP4>().is_some());
    assert!(base_bag.get::<PROP4>().is_none());
    assert!(final_bag.get::<PROP1>().is_some());
    assert!(final_bag.get::<PROP2>().is_some());
    // we unset prop3
    assert!(final_bag.get::<PROP3>().is_none());
    // the bag below the new layer still has it
    assert!(base_bag.get::<PROP3>().is_some());
}

#[test]
fn config_bag() {
    let bag = ConfigBag::base();
    let bag = bag.with_fn("service config", |layer: &mut ConfigBag| {
        layer.put::<REGION>(text("asdf"));
    });

    assert_eq!(bag.get::<REGION>().unwrap(), &text("asdf"));

    let bag = bag.freeze();
    let operation_config = bag.with_fn("operation", |layer: &mut ConfigBag| {
        layer.put::<SIGNING_NAME>(text("s3"));
    });

    assert!(bag.get::<SIGNING_NAME>().is_none());
    assert_eq!(operation_config.get::<SIGNING_NAME>().unwrap(), &text("s3"));

    let mut open_bag = operation_config.with_fn("my_custom_info", |_bag: &mut ConfigBag| {});
    open_bag.put::<CUSTOM_INFO>(text("foo"));
    assert_eq!(open_bag.get::<CUSTOM_INFO>(), Some(&text("foo")));
}

#[derive(Debug, Eq, PartialEq, Clone)]
struct MyConfig {
    a: bool,
    b: String,
}

impl Persist for MyConfig {
    fn layer_name(&self) -> &'static str {
        "my_config"
    }

    fn persist(&self, layer: &mut ConfigBag) {
        layer.put::<FIELD_A>(ConfigValue::Bool(self.a));
        layer.put::<FIELD_B>(ConfigValue::Text(self.b.clone()));
    }
}

impl Load for MyConfig {
    fn load(bag: &ConfigBag) -> Result<Option<Self>, MissingConfiguration> {
        let a = match bag.require::<FIELD_A>()? {
            ConfigValue::Bool(a) => *a,
            _ => return Ok(None),
        };
        let b = match bag.require::<FIELD_B>()? {
            ConfigValue::Text(b) => b.clone(),
            _ => return Ok(None),
        };
        Ok(Some(MyConfig { a, b }))
    }
}

impl ConfigLayer for MyConfig {}

#[test]
fn persist_trait() {
    let conf = MyConfig {
        a: true,
        b: "hello!".to_string(),
    };

    let bag = ConfigBag::base().with(conf.clone());

    assert_eq!(MyConfig::load(&bag), Ok(Some(conf)));
}

#[test]
fn load_reports_the_missing_required_kind() {
    let bag = ConfigBag::base().with_fn("half", |layer: &mut ConfigBag| {
        layer.put::<FIELD_A>(ConfigValue::Bool(false));
    });
    assert_eq!(
        MyConfig::load(&bag),
        Err(MissingConfiguration { kind: FIELD_B })
    );
    assert_eq!(
        bag.require::<FIELD_B>(),
        Err(MissingConfiguration { kind: FIELD_B })
    );
    assert_eq!(bag.require::<FIELD_A>(), Ok(&ConfigValue::Bool(false)));
}

#[test]
fn storeable_option() {
    let mut bag = ConfigBag::base();

    bag.store::<REGION>(text("asdf"));
    assert_eq!(bag.load::<StoreReplace, REGION>(), Some(&text("asdf")));
}

#[test]
fn storeable_vec() {
    let mut bag = ConfigBag::base();
    bag.store::<INTERCEPTOR>(text("1"));
    bag.store::<INTERCEPTOR>(text("2"));
    bag = bag.add_layer("next");
    bag.store::<INTERCEPTOR>(text("3"));
    assert_eq!(
        bag.load::<StoreAppend, INTERCEPTOR>(),
        vec![&text("1"), &text("2"), &text("3")]
    );
}

struct Foo;

impl Storable for Foo {
    type ContainerType<'a> = Option<&'a ConfigValue>;

    fn new_accum<'a>() -> Option<&'a ConfigValue> {
        None
    }

    fn merge<'a>(_accum: Option<&'a ConfigValue>, item: &'a ConfigValue) -> Option<&'a ConfigValue> {
        Some(item)
    }
}

#[test]
fn test_macro() {
    let bag = ConfigBag::base();
    let _ = bag.load::<Foo, REGION>();
}

struct Smallest;

impl Storable for Smallest {
    type ContainerType<'a> = Option<&'a ConfigValue>;

    fn new_accum<'a>() -> Option<&'a ConfigValue> {
        None
    }

    fn merge<'a>(accum: Option<&'a ConfigValue>, item: &'a ConfigValue) -> Option<&'a ConfigValue> {
        match (accum, item) {
            (Some(ConfigValue::Number(kept)), ConfigValue::Number(new)) if kept <= new => accum,
            _ => Some(item),
        }
    }
}

#[test]
fn custom_policy_keeps_the_smaller_timeout() {
    let mut bag = ConfigBag::base();
    bag.store::<TIMEOUT>(ConfigValue::Number(30));
    let mut bag = bag.add_layer("operation");
    bag.store::<TIMEOUT>(ConfigValue::Number(5));
    let mut bag = bag.add_layer("request");
    bag.store::<TIMEOUT>(ConfigValue::Number(12));
    assert_eq!(bag.load::<Smallest, TIMEOUT>(), Some(&ConfigValue::Number(5)));
    assert_eq!(bag.load::<StoreReplace, TIMEOUT>(), Some(&ConfigValue::Number(12)));
}

#[test]
fn replace_policy_latest_wins() {
    let mut bag = ConfigBag::base();
    bag.store::<REGION>(text("X"));
    let mut bag = bag.add_layer("newer");
    bag.store::<REGION>(text("Y"));
    assert_eq!(bag.load::<StoreReplace, REGION>(), Some(&text("Y")));
    assert_eq!(bag.load::<StoreReplace, SIGNING_NAME>(), None);
}

#[test]
fn store_or_unset_clears_only_the_head() {
    let mut bag = ConfigBag::base();
    bag.store::<INTERCEPTOR>(text("1"));
    let mut bag = bag.add_layer("next");
    bag.store::<INTERCEPTOR>(text("2"));
    bag.store_or_unset::<INTERCEPTOR>(None);
    assert_eq!(bag.load::<StoreAppend, INTERCEPTOR>(), vec![&text("1")]);
    bag.store_or_unset::<INTERCEPTOR>(Some(text("3")));
    assert_eq!(
        bag.load::<StoreAppend, INTERCEPTOR>(),
        vec![&text("1"), &text("3")]
    );
}

#[test]
fn exclusive_mutation_gate() {
    let mut bag = ConfigBag::base();
    bag.put::<REGION>(text("asdf"));
    let frozen = bag.freeze();
    let mut unlocked = frozen.try_modify().expect("the only owner");
    assert_eq!(unlocked.get::<REGION>(), Some(&text("asdf")));
    unlocked.put::<REGION>(text("other"));
    assert_eq!(unlocked.get::<REGION>(), Some(&text("other")));

    let first = unlocked.freeze();
    let second = first.clone();
    let third = second.clone();
    // while another clone lives, neither can be modified in place
    assert!(first.try_modify().is_none());
    assert!(second.try_modify().is_none());
    // the caller adds a layer instead
    let layer = third.add_layer("fallback");
    assert_eq!(layer.get::<REGION>(), Some(&text("other")));
    assert!(third.try_modify().is_none());
    drop(layer);
}

#[test]
fn the_last_handle_can_be_modified_again() {
    let frozen = FrozenConfigBag::from(ConfigBag::base());
    let clone = frozen.clone();
    drop(frozen);
    let mut unlocked = clone.try_modify().expect("the only owner");
    unlocked.put::<REGION>(text("asdf"));
    assert_eq!(unlocked.get::<REGION>(), Some(&text("asdf")));
}

#[test]
fn isolation_under_freeze() {
    let mut bag = ConfigBag::base();
    bag.put::<REGION>(text("asdf"));
    bag.store::<INTERCEPTOR>(text("1"));
    let frozen = bag.freeze();
    let mut derived = frozen.add_layer("derived");
    derived.put::<REGION>(text("changed"));
    derived.unset::<SIGNING_NAME>();
    derived.store::<INTERCEPTOR>(text("2"));
    assert_eq!(frozen.get::<REGION>(), Some(&text("asdf")));
    assert_eq!(frozen.get::<SIGNING_NAME>(), None);
    assert_eq!(frozen.load::<StoreAppend, INTERCEPTOR>(), vec![&text("1")]);
    assert_eq!(derived.get::<REGION>(), Some(&text("changed")));
}

#[test]
fn provenance_trail() {
    let bag = ConfigBag::base()
        .with_fn("a", |bag: &mut ConfigBag| {
            bag.put::<REGION>(text("asdf"));
        })
        .with_fn("b", |_bag: &mut ConfigBag| {})
        .with_fn("c", |bag: &mut ConfigBag| {
            bag.unset::<REGION>();
        });
    let mut trail = vec![];
    assert_eq!(bag.sourced_get::<REGION>(&mut trail), None);
    assert_eq!(
        trail,
        vec![
            SourceInfo::Unset { layer: "c" },
            SourceInfo::Inherit { layer: "b" },
            SourceInfo::Assigned {
                layer: "a",
                value: "asdf".to_string()
            },
            SourceInfo::Inherit { layer: "base" },
        ]
    );
}

#[test]
fn values_are_described_as_text() {
    assert_eq!(ConfigValue::Marker.describe(), "marker");
    assert_eq!(ConfigValue::Bool(true).describe(), "true");
    assert_eq!(ConfigValue::Bool(false).describe(), "false");
    assert_eq!(ConfigValue::Number(0).describe(), "0");
    assert_eq!(ConfigValue::Number(907).describe(), "907");
    assert_eq!(ConfigValue::Number(u64::MAX).describe(), "18446744073709551615");
    assert_eq!(text("asdf").describe(), "asdf");
}

#[test]
fn add_bag_layer_joins_a_single_layer() {
    let mut base = ConfigBag::base();
    base.put::<REGION>(text("asdf"));
    let frozen = base.freeze();
    let mut single = ConfigBag::base();
    single.put::<SIGNING_NAME>(text("s3"));
    let joined = frozen.add_bag_layer("unused", single);
    assert_eq!(joined.get::<REGION>(), Some(&text("asdf")));
    assert_eq!(joined.get::<SIGNING_NAME>(), Some(&text("s3")));
}

#[test]
fn default_is_the_base_bag() {
    let bag = ConfigBag::default();
    let mut trail = vec![];
    assert_eq!(bag.sourced_get::<REGION>(&mut trail), None);
    assert_eq!(trail, vec![SourceInfo::Inherit { layer: "base" }]);
}

fn shareable<T: Send + Sync + Clone>() {}

#[test]
fn frozen_bags_can_be_shared_between_threads() {
    shareable::<FrozenConfigBag>();
}

#[test]
fn a_reclaimed_bag_is_the_bag_that_was_taken_out() {
    let mut bag = ConfigBag::base();
    bag.put::<REGION>(text("asdf"));
    let unlocked = FrozenConfigBag::reclaimed(Ok(bag)).expect("taken out");
    assert_eq!(unlocked.get::<REGION>(), Some(&text("asdf")));
    assert!(FrozenConfigBag::reclaimed(Err(Arc::new(ConfigBag::base()))).is_none());
}
