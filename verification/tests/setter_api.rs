//! Tests of the in-place (setter) component.

use fluent_blueprint::model::{Item, Root};
use fluent_blueprint::strmap::StrMap;

fn item_with_number(number: u8) -> Item {
    Item {
        number,
        boolean: false,
        string: String::new(),
        opt_string: None,
    }
}

#[test]
fn fresh_aggregates_hold_defaults() {
    let root = Root::default();
    assert_eq!(0, root.number);
    assert_eq!(false, root.boolean);
    assert_eq!("", root.string);
    assert_eq!(None, root.opt_string);
    assert_eq!(None, root.opt_item);
    assert!(root.listitems.is_empty());
    assert_eq!(0, root.mapitems.len());

    let item = Item::default();
    assert_eq!(0, item.number);
    assert_eq!(false, item.boolean);
    assert_eq!("", item.string);
    assert_eq!(None, item.opt_string);
}

#[test]
fn setter_scalar_roundtrip() {
    let mut root = Root::default();
    root.set_number(1);
    assert_eq!(1, root.number);

    root.set_boolean(true);
    assert_eq!(true, root.boolean);

    root.set_string("foobar");
    assert_eq!("foobar", root.string);

    root.set_opt_string("foobar");
    assert_eq!(Some("foobar"), root.opt_string.as_deref());

    let mut item = Item::default();
    item.set_number(1);
    assert_eq!(1, item.number);
}

#[test]
fn setter_opt_item_variants() {
    let mut root = Root::default();
    root.set_opt_item(Item::default());
    assert_eq!(Some(Item::default()), root.opt_item);

    let mut root = Root::default();
    root.set_opt_item_with(|| item_with_number(7));
    assert_eq!(Some(item_with_number(7)), root.opt_item);
}

#[test]
fn nested_default_then_mutate_equivalence() {
    let mut root = Root::default();
    root.set_opt_item_with_default(|mut i| {
        i.set_number(2);
        i
    });

    let mut by_hand = Item::default();
    by_hand.number = 2;
    assert_eq!(Some(by_hand), root.opt_item);
    assert_eq!(Some(item_with_number(2)), root.opt_item);
}

#[test]
fn push_listitem_keeps_append_order() {
    let mut root = Root::default();
    root.push_listitem(item_with_number(1));
    root.push_listitem(item_with_number(2));
    assert_eq!(vec![item_with_number(1), item_with_number(2)], root.listitems);
}

#[test]
fn push_listitem_variants() {
    let mut root = Root::default();
    root.push_listitem(Item::default());
    assert_eq!(vec![Item::default()], root.listitems);

    let mut root = Root::default();
    root.push_listitem_with(|| Item::default());
    assert_eq!(vec![Item::default()], root.listitems);

    let mut root = Root::default();
    root.push_listitem_with_default(|i| i);
    assert_eq!(vec![Item::default()], root.listitems);
}

#[test]
fn push_mapitem_last_write_wins() {
    let mut root = Root::default();
    root.push_mapitem("k", item_with_number(1));
    root.push_mapitem("k", item_with_number(2));
    assert_eq!(Some(&item_with_number(2)), root.mapitems.get("k"));
    assert_eq!(1, root.mapitems.len());
}

#[test]
fn push_mapitem_variants() {
    let mut root = Root::default();
    root.push_mapitem("foobar", Item::default());
    assert_eq!(Some(&Item::default()), root.mapitems.get("foobar"));

    let mut root = Root::default();
    root.push_mapitem_with("foobar", || Item::default());
    assert_eq!(Some(&Item::default()), root.mapitems.get("foobar"));

    let mut root = Root::default();
    root.push_mapitem_with_default("foobar", |mut i| {
        i.set_number(1);
        i
    });
    assert_eq!(Some(&item_with_number(1)), root.mapitems.get("foobar"));
}

#[test]
fn with_threads_ownership_through_the_mutator() {
    let root = Root::default().with(|mut r| {
        r.set_number(1);
        r
    });
    assert_eq!(1, root.number);

    let item = Item::default().with(|mut i| {
        i.set_number(1);
        i
    });
    assert_eq!(1, item.number);
}

#[test]
fn setter_end_to_end_matches_builder_end_to_end() {
    let by_setter = Root::default().with(|mut r| {
        r.set_number(1)
            .set_boolean(true)
            .set_string("foo")
            .set_opt_string("bar")
            .set_opt_item_with_default(|mut i| {
                i.set_number(2);
                i
            })
            .push_listitem_with_default(|mut i| {
                i.set_number(3);
                i
            })
            .push_mapitem_with_default("foobar", |mut i| {
                i.set_number(4);
                i
            });
        r
    });

    let mut mapitems = StrMap::new();
    mapitems.insert("foobar", item_with_number(4));
    let expected = Root {
        number: 1,
        boolean: true,
        string: "foo".to_owned(),
        opt_string: Some("bar".to_owned()),
        opt_item: Some(item_with_number(2)),
        listitems: vec![item_with_number(3)],
        mapitems,
    };

    assert_eq!(expected, by_setter);

    let by_builder = Root::builder()
        .number(1)
        .boolean(true)
        .string("foo")
        .opt_string("bar")
        .opt_item_with(|mut i| {
            i.number(2);
            i
        })
        .listitem_with(|mut i| {
            i.number(3);
            i
        })
        .mapitem_with("foobar", |mut i| {
            i.number(4);
            i
        })
        .build();

    assert_eq!(by_builder, by_setter);
}
