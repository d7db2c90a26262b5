//! Tests of the staged-construction (builder) component.

use fluent_blueprint::builder::TakeWithOption;
use fluent_blueprint::model::{Item, Root};
use fluent_blueprint::strmap::StrMap;

fn item_with_number(number: u8) -> Item {
    Item {
        number,
        boolean: false,
        string: String::new(),
        opt_string: None,
    }
}

fn default_root() -> Root {
    Root {
        number: 0,
        boolean: false,
        string: "".to_owned(),
        opt_string: None,
        opt_item: None,
        listitems: vec![],
        mapitems: StrMap::new(),
    }
}

fn full_expected() -> Root {
    let mut mapitems = StrMap::new();
    mapitems.insert("foobar", item_with_number(4));
    Root {
        number: 1,
        boolean: true,
        string: "foo".to_owned(),
        opt_string: Some("bar".to_owned()),
        opt_item: Some(item_with_number(2)),
        listitems: vec![item_with_number(3)],
        mapitems,
    }
}

#[test]
fn derivebuilder_usage() {
    let actual = Root::builder()
        .number(1)
        .boolean(true)
        .string("foo")
        .opt_string("bar")
        .opt_item(Item::builder().number(2).build())
        .listitem(Item::builder().number(3).build())
        .mapitem("foobar", Item::builder().number(4).build())
        .build();

    assert_eq!(full_expected(), actual);
}

#[test]
fn support_default() {
    let actual = Root::builder().build();

    assert_eq!(default_root(), actual);
}

#[test]
fn typedbuilder_usage() {
    let actual = Root::builder()
        .number(1)
        .boolean(true)
        .string("foo")
        .opt_string("bar")
        .opt_item(Item::builder().number(2).build())
        .listitem(Item::builder().number(3).build())
        .mapitem("foobar", Item::builder().number(4).build())
        .build();

    assert_eq!(full_expected(), actual);
}

#[test]
fn default() {
    let actual = Root::builder().build();

    assert_eq!(default_root(), actual);
}

#[test]
fn builder_end_to_end_with_nested_builders() {
    let actual = Root::builder()
        .number(1)
        .boolean(true)
        .string("foo")
        .opt_string("bar")
        .opt_item_with(|mut i| {
            i.number(2);
            i
        })
        .listitem_with(|mut i| {
            i.number(3);
            i
        })
        .mapitem_with("foobar", |mut i| {
            i.number(4);
            i
        })
        .build();

    assert_eq!(full_expected(), actual);
}

#[test]
fn builder_scalar_roundtrip() {
    let root = Root::builder().number(1).build();
    assert_eq!(1, root.number);

    let root = Root::builder().boolean(true).build();
    assert_eq!(true, root.boolean);

    let root = Root::builder().string("foobar").build();
    assert_eq!("foobar", root.string);

    let root = Root::builder().opt_string("foobar").build();
    assert_eq!(Some("foobar"), root.opt_string.as_deref());

    let item = Item::builder().number(1).build();
    assert_eq!(1, item.number);
}

#[test]
fn builder_opt_item_roundtrip() {
    let root = Root::builder().opt_item(item_with_number(1)).build();
    assert_eq!(Some(item_with_number(1)), root.opt_item);
}

#[test]
fn builder_list_keeps_call_order() {
    let root = Root::builder()
        .listitem(item_with_number(1))
        .listitem(item_with_number(2))
        .build();
    assert_eq!(vec![item_with_number(1), item_with_number(2)], root.listitems);
}

#[test]
fn builder_map_last_write_wins() {
    let root = Root::builder()
        .mapitem("k", item_with_number(1))
        .mapitem("k", item_with_number(2))
        .build();
    assert_eq!(1, root.mapitems.len());
    assert_eq!(Some(&item_with_number(2)), root.mapitems.get("k"));
}

#[test]
fn builder_can_build_repeatedly() {
    let mut builder = Root::builder();
    builder.number(1);
    let first = builder.build();
    assert_eq!(1, first.number);

    // build consumed the recorded fields: a second build starts clean
    let second = builder.build();
    assert_eq!(default_root(), second);
}

#[test]
fn take_with_consumes_the_content() {
    let mut slot: Option<u8> = Some(5);
    let mut seen: Option<u8> = None;
    slot.take_with(|v| seen = Some(v));
    assert_eq!(Some(5), seen);
    assert_eq!(None, slot);

    let mut empty: Option<u8> = None;
    let mut called = false;
    empty.take_with(|_| called = true);
    assert!(!called);
    assert_eq!(None, empty);
}
