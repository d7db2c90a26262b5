//! Staged construction for the data model.
//!
//! A builder accumulates optionally-recorded field values apart from the
//! aggregate itself; the terminal [`RootBuilder::build`] overlays exactly
//! the recorded fields onto a fresh default aggregate, consuming them, and
//! leaves every unrecorded field at the target's default. Collection fields
//! are initialized lazily by their first contribution and then accumulate
//! in place: list contributions keep their call order and map contributions
//! are resolved last-write-wins per key.

use crate::model::{Item, ItemV, Root, RootV};
use crate::strmap::StrMap;
use vstd::prelude::*;

verus! {

/// Emptying an optional slot into a consumer.
pub trait TakeWithOption<T> {
    /// The value the container currently holds, if any.
    spec fn pending(&self) -> Option<T>;

    /// Empties the container; a present value is handed to `f` exactly once.
    fn take_with<F: FnOnce(T)>(&mut self, f: F)
        requires
            forall|v: T| old(self).pending() == Some(v) ==> call_requires(f, (v,)),
        ensures
            final(self).pending() is None,
            old(self).pending() matches Some(v) ==> call_ensures(f, (v,), ()),
    ;
}

impl<T> TakeWithOption<T> for Option<T> {
    open spec fn pending(&self) -> Option<T> {
        *self
    }

    fn take_with<F: FnOnce(T)>(&mut self, f: F) {
        if let Some(value) = self.take() {
            f(value);
        }
    }
}

/// Mathematical value of an [`ItemBuilder`]: one optional slot per field a
/// nested item can record.
#[verifier::ext_equal]
pub ghost struct ItemBuilderV {
    pub number: Option<u8>,
}

impl ItemBuilderV {
    /// A builder with no field recorded.
    pub open spec fn empty() -> ItemBuilderV {
        ItemBuilderV { number: None }
    }

    /// The item that building produces: the recorded fields overlaid onto a
    /// fresh default item.
    pub open spec fn overlay(self) -> ItemV {
        ItemV {
            number: match self.number {
                Some(n) => n,
                None => 0,
            },
            boolean: false,
            string: Seq::empty(),
            opt_string: None,
        }
    }
}

/// Mathematical value of a [`RootBuilder`]: one optional slot per field of
/// the aggregate.
#[verifier::ext_equal]
pub ghost struct RootBuilderV {
    pub number: Option<u8>,
    pub boolean: Option<bool>,
    pub string: Option<Seq<char>>,
    pub opt_string: Option<Option<Seq<char>>>,
    pub opt_item: Option<Option<ItemV>>,
    pub listitems: Option<Seq<ItemV>>,
    pub mapitems: Option<Map<Seq<char>, ItemV>>,
}

impl RootBuilderV {
    /// A builder with no field recorded.
    pub open spec fn empty() -> RootBuilderV {
        RootBuilderV {
            number: None,
            boolean: None,
            string: None,
            opt_string: None,
            opt_item: None,
            listitems: None,
            mapitems: None,
        }
    }

    /// The aggregate that building produces: the recorded fields overlaid
    /// onto a fresh default aggregate.
    pub open spec fn overlay(self) -> RootV {
        RootV {
            number: match self.number {
                Some(n) => n,
                None => 0,
            },
            boolean: match self.boolean {
                Some(b) => b,
                None => false,
            },
            string: match self.string {
                Some(s) => s,
                None => Seq::empty(),
            },
            opt_string: match self.opt_string {
                Some(o) => o,
                None => None,
            },
            opt_item: match self.opt_item {
                Some(o) => o,
                None => None,
            },
            listitems: match self.listitems {
                Some(l) => l,
                None => Seq::empty(),
            },
            mapitems: match self.mapitems {
                Some(m) => m,
                None => Map::empty(),
            },
        }
    }

    /// The builder after one more list contribution: the pending sequence
    /// is initialized by its first contribution, later ones append.
    pub open spec fn record_listitem(self, i: ItemV) -> RootBuilderV {
        RootBuilderV {
            listitems: Some(
                match self.listitems {
                    Some(l) => l.push(i),
                    None => seq![i],
                },
            ),
            ..self
        }
    }

    /// The builder after one more map contribution: the pending mapping is
    /// initialized by its first contribution, later ones insert by key.
    pub open spec fn record_mapitem(self, k: Seq<char>, v: ItemV) -> RootBuilderV {
        RootBuilderV {
            mapitems: Some(
                match self.mapitems {
                    Some(m) => m.insert(k, v),
                    None => Map::empty().insert(k, v),
                },
            ),
            ..self
        }
    }
}

/// Accumulates pending field assignments for a [`Root`].
pub struct RootBuilder {
    number: Option<u8>,
    boolean: Option<bool>,
    string: Option<String>,
    opt_string: Option<Option<String>>,
    opt_item: Option<Option<Item>>,
    listitems: Option<Vec<Item>>,
    mapitems: Option<StrMap<Item>>,
}

impl View for RootBuilder {
    type V = RootBuilderV;

    closed spec fn view(&self) -> RootBuilderV {
        RootBuilderV {
            number: self.number,
            boolean: self.boolean,
            string: self.string.deep_view(),
            opt_string: self.opt_string.deep_view(),
            opt_item: self.opt_item.deep_view(),
            listitems: self.listitems.deep_view(),
            mapitems: match self.mapitems {
                Some(m) => Some(m@),
                None => None,
            },
        }
    }
}

impl Default for RootBuilder {
    /// A builder with no field recorded.
    fn default() -> (b: RootBuilder)
        ensures
            b@ == RootBuilderV::empty(),
    {
        RootBuilder {
            number: None,
            boolean: None,
            string: None,
            opt_string: None,
            opt_item: None,
            listitems: None,
            mapitems: None,
        }
    }
}

/// Accumulates pending field assignments for an [`Item`].
pub struct ItemBuilder {
    number: Option<u8>,
}

impl View for ItemBuilder {
    type V = ItemBuilderV;

    closed spec fn view(&self) -> ItemBuilderV {
        ItemBuilderV { number: self.number }
    }
}

impl Default for ItemBuilder {
    /// A builder with no field recorded.
    fn default() -> (b: ItemBuilder)
        ensures
            b@ == ItemBuilderV::empty(),
    {
        ItemBuilder { number: None }
    }
}

impl Root {
    /// Starts staged construction of an aggregate without naming the
    /// builder type.
    pub fn builder() -> (b: RootBuilder)
        ensures
            b@ == RootBuilderV::empty(),
    {
        RootBuilder::default()
    }
}

impl Item {
    /// Starts staged construction of an item without naming the builder
    /// type.
    pub fn builder() -> (b: ItemBuilder)
        ensures
            b@ == ItemBuilderV::empty(),
    {
        ItemBuilder::default()
    }
}

impl RootBuilder {
    /// Produces the aggregate: a fresh default overlaid with exactly the
    /// recorded fields, which are consumed in the process. Building again
    /// therefore starts from a clean slate.
    pub fn build(&mut self) -> (root: Root)
        ensures
            root@ == old(self)@.overlay(),
            final(self)@ == RootBuilderV::empty(),
    {
        let mut root = Root::default();
        if let Some(number) = self.number.take() {
            root.number = number;
        }
        if let Some(boolean) = self.boolean.take() {
            root.boolean = boolean;
        }
        if let Some(string) = self.string.take() {
            root.string = string;
        }
        if let Some(opt_string) = self.opt_string.take() {
            root.opt_string = opt_string;
        }
        if let Some(opt_item) = self.opt_item.take() {
            root.opt_item = opt_item;
        }
        if let Some(listitems) = self.listitems.take() {
            root.listitems = listitems;
        }
        if let Some(mapitems) = self.mapitems.take() {
            root.mapitems = mapitems;
        }
        root
    }

    /// Records `number`; building will apply it.
    pub fn number(&mut self, number: u8) -> (r: &mut Self)
        ensures
            r@ == (RootBuilderV { number: Some(number), ..old(self)@ }),
            *final(self) == *final(r),
    {
        self.number = Some(number);
        self
    }

    /// Records `boolean`; building will apply it.
    pub fn boolean(&mut self, boolean: bool) -> (r: &mut Self)
        ensures
            r@ == (RootBuilderV { boolean: Some(boolean), ..old(self)@ }),
            *final(self) == *final(r),
    {
        self.boolean = Some(boolean);
        self
    }

    /// Records an owned copy of the given text for `string`.
    pub fn string(&mut self, string: &str) -> (r: &mut Self)
        ensures
            r@ == (RootBuilderV { string: Some(string@), ..old(self)@ }),
            *final(self) == *final(r),
    {
        self.string = Some(string.to_owned());
        self
    }

    /// Records the given text as the present value for `opt_string`.
    pub fn opt_string(&mut self, string: &str) -> (r: &mut Self)
        ensures
            r@ == (RootBuilderV { opt_string: Some(Some(string@)), ..old(self)@ }),
            *final(self) == *final(r),
    {
        self.opt_string = Some(Some(string.to_owned()));
        self
    }

    /// Records the given item as the present value for `opt_item`.
    pub fn opt_item(&mut self, item: Item) -> (r: &mut Self)
        ensures
            r@ == (RootBuilderV { opt_item: Some(Some(item@)), ..old(self)@ }),
            *final(self) == *final(r),
    {
        self.opt_item = Some(Some(item));
        self
    }

    /// Hands a fresh nested builder to the mutator, builds its result, and
    /// records it for `opt_item`: nested construction without naming the
    /// nested builder type.
    pub fn opt_item_with<F: FnOnce(ItemBuilder) -> ItemBuilder>(&mut self, item: F) -> (r:
        &mut Self)
        requires
            forall|b: ItemBuilder| b@ == ItemBuilderV::empty() ==> call_requires(item, (b,)),
        ensures
            exists|b0: ItemBuilder, b1: ItemBuilder|
                #[trigger] call_ensures(item, (b0,), b1) && b0@ == ItemBuilderV::empty() && r@
                    == (RootBuilderV { opt_item: Some(Some(b1@.overlay())), ..old(self)@ }),
            *final(self) == *final(r),
    {
        let fresh = Item::builder();
        let mut configured = item(fresh);
        let produced = configured.build();
        self.opt_item(produced)
    }

    /// Appends the given item to the pending list, initializing the list on
    /// its first contribution.
    pub fn listitem(&mut self, item: Item) -> (r: &mut Self)
        ensures
            r@ == old(self)@.record_listitem(item@),
            *final(self) == *final(r),
    {
        let ghost item_v = item@;
        let mut l = match self.listitems.take() {
            Some(l) => l,
            None => Vec::new(),
        };
        let ghost l0 = l.deep_view();
        l.push(item);
        proof {
            assert(l.deep_view() =~= l0.push(item_v));
            if old(self)@.listitems is None {
                assert(l.deep_view() =~= seq![item_v]);
            }
        }
        self.listitems = Some(l);
        self
    }

    /// Hands a fresh nested builder to the mutator, builds its result, and
    /// appends it to the pending list.
    pub fn listitem_with<F: FnOnce(ItemBuilder) -> ItemBuilder>(&mut self, item: F) -> (r:
        &mut Self)
        requires
            forall|b: ItemBuilder| b@ == ItemBuilderV::empty() ==> call_requires(item, (b,)),
        ensures
            exists|b0: ItemBuilder, b1: ItemBuilder|
                #[trigger] call_ensures(item, (b0,), b1) && b0@ == ItemBuilderV::empty() && r@
                    == old(self)@.record_listitem(b1@.overlay()),
            *final(self) == *final(r),
    {
        let fresh = Item::builder();
        let mut configured = item(fresh);
        let produced = configured.build();
        self.listitem(produced)
    }

    /// Binds `key` to the given item in the pending mapping, initializing
    /// the mapping on its first contribution; an earlier binding of the
    /// same key is overwritten.
    pub fn mapitem(&mut self, key: &str, item: Item) -> (r: &mut Self)
        ensures
            r@ == old(self)@.record_mapitem(key@, item@),
            *final(self) == *final(r),
    {
        let mut m = match self.mapitems.take() {
            Some(m) => m,
            None => StrMap::new(),
        };
        m.insert(key, item);
        self.mapitems = Some(m);
        self
    }

    /// Hands a fresh nested builder to the mutator, builds its result, and
    /// binds `key` to it in the pending mapping.
    pub fn mapitem_with<F: FnOnce(ItemBuilder) -> ItemBuilder>(&mut self, key: &str, value: F) -> (
        r: &mut Self)
        requires
            forall|b: ItemBuilder| b@ == ItemBuilderV::empty() ==> call_requires(value, (b,)),
        ensures
            exists|b0: ItemBuilder, b1: ItemBuilder|
                #[trigger] call_ensures(value, (b0,), b1) && b0@ == ItemBuilderV::empty() && r@
                    == old(self)@.record_mapitem(key@, b1@.overlay()),
            *final(self) == *final(r),
    {
        let fresh = Item::builder();
        let mut configured = value(fresh);
        let produced = configured.build();
        self.mapitem(key, produced)
    }
}

impl ItemBuilder {
    /// Produces the item: a fresh default overlaid with exactly the
    /// recorded fields, which are consumed in the process.
    pub fn build(&mut self) -> (item: Item)
        ensures
            item@ == old(self)@.overlay(),
            final(self)@ == ItemBuilderV::empty(),
    {
        let mut item = Item::default();
        if let Some(number) = self.number.take() {
            item.number = number;
        }
        item
    }

    /// Records `number`; building will apply it.
    pub fn number(&mut self, number: u8) -> (r: &mut Self)
        ensures
            r@ == (ItemBuilderV { number: Some(number) }),
            *final(self) == *final(r),
    {
        self.number = Some(number);
        self
    }
}

} // verus!
