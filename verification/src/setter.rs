//! In-place fluent setters for the data model.
//!
//! A default-constructed aggregate is mutated field by field through chained
//! calls; every call returns a handle to the same aggregate so a whole
//! configuration reads as one expression. Every operation is total: setters
//! overwrite, list pushes append at the end, and map pushes bind a key,
//! overwriting an earlier binding of the same key.

use crate::model::{Item, ItemV, Root, RootV};
use vstd::prelude::*;

verus! {

impl Root {
    /// Hands a freshly built aggregate to an arbitrary mutator and returns
    /// the mutated aggregate: the escape hatch that ends a chain started
    /// from a value.
    pub fn with<F: FnOnce(Root) -> Root>(self, f: F) -> (r: Root)
        requires
            call_requires(f, (self,)),
        ensures
            call_ensures(f, (self,), r),
    {
        f(self)
    }

    /// Overwrites `number` and hands the aggregate back for further calls.
    pub fn set_number(&mut self, number: u8) -> (r: &mut Self)
        ensures
            r@ == (RootV { number: number, ..old(self)@ }),
            *final(self) == *final(r),
    {
        self.number = number;
        self
    }

    /// Overwrites `boolean` and hands the aggregate back for further calls.
    pub fn set_boolean(&mut self, boolean: bool) -> (r: &mut Self)
        ensures
            r@ == (RootV { boolean: boolean, ..old(self)@ }),
            *final(self) == *final(r),
    {
        self.boolean = boolean;
        self
    }

    /// Overwrites `string` with an owned copy of the given text.
    pub fn set_string(&mut self, string: &str) -> (r: &mut Self)
        ensures
            r@ == (RootV { string: string@, ..old(self)@ }),
            *final(self) == *final(r),
    {
        self.string = string.to_owned();
        self
    }

    /// Stores the given text as the present value of `opt_string`.
    pub fn set_opt_string(&mut self, string: &str) -> (r: &mut Self)
        ensures
            r@ == (RootV { opt_string: Some(string@), ..old(self)@ }),
            *final(self) == *final(r),
    {
        self.opt_string = Some(string.to_owned());
        self
    }

    /// Stores the given item as the present value of `opt_item`.
    pub fn set_opt_item(&mut self, item: Item) -> (r: &mut Self)
        ensures
            r@ == (RootV { opt_item: Some(item@), ..old(self)@ }),
            *final(self) == *final(r),
    {
        self.opt_item = Some(item);
        self
    }

    /// Stores the supplier's item as the present value of `opt_item`, so a
    /// caller can defer constructing the item to a closure.
    pub fn set_opt_item_with<F: FnOnce() -> Item>(&mut self, item: F) -> (r: &mut Self)
        requires
            call_requires(item, ()),
        ensures
            exists|i: Item|
                #[trigger] call_ensures(item, (), i) && r@ == (RootV {
                    opt_item: Some(i@),
                    ..old(self)@
                }),
            *final(self) == *final(r),
    {
        let produced = item();
        self.set_opt_item(produced)
    }

    /// Builds a default item, hands it to the mutator, and stores the result
    /// as the present value of `opt_item`: nested construction without
    /// naming the nested type.
    pub fn set_opt_item_with_default<F: FnOnce(Item) -> Item>(&mut self, f: F) -> (r: &mut Self)
        requires
            forall|i: Item| i@ == ItemV::defaulted() ==> call_requires(f, (i,)),
        ensures
            exists|i: Item, j: Item|
                #[trigger] call_ensures(f, (i,), j) && i@ == ItemV::defaulted() && r@ == (RootV {
                    opt_item: Some(j@),
                    ..old(self)@
                }),
            *final(self) == *final(r),
    {
        let item = f(Item::default());
        self.set_opt_item(item)
    }

    /// Appends the given item at the end of `listitems`.
    pub fn push_listitem(&mut self, item: Item) -> (r: &mut Self)
        ensures
            r@ == (RootV { listitems: old(self)@.listitems.push(item@), ..old(self)@ }),
            *final(self) == *final(r),
    {
        let ghost item_v = item@;
        self.listitems.push(item);
        proof {
            assert(self.listitems.deep_view() =~= old(self).listitems.deep_view().push(item_v));
        }
        self
    }

    /// Appends the supplier's item at the end of `listitems`.
    pub fn push_listitem_with<F: FnOnce() -> Item>(&mut self, item: F) -> (r: &mut Self)
        requires
            call_requires(item, ()),
        ensures
            exists|i: Item|
                #[trigger] call_ensures(item, (), i) && r@ == (RootV {
                    listitems: old(self)@.listitems.push(i@),
                    ..old(self)@
                }),
            *final(self) == *final(r),
    {
        let produced = item();
        self.push_listitem(produced)
    }

    /// Builds a default item, hands it to the mutator, and appends the
    /// result at the end of `listitems`.
    pub fn push_listitem_with_default<F: FnOnce(Item) -> Item>(&mut self, f: F) -> (r: &mut Self)
        requires
            forall|i: Item| i@ == ItemV::defaulted() ==> call_requires(f, (i,)),
        ensures
            exists|i: Item, j: Item|
                #[trigger] call_ensures(f, (i,), j) && i@ == ItemV::defaulted() && r@ == (RootV {
                    listitems: old(self)@.listitems.push(j@),
                    ..old(self)@
                }),
            *final(self) == *final(r),
    {
        let item = f(Item::default());
        self.push_listitem(item)
    }

    /// Binds `key` to the given item in `mapitems`, overwriting an earlier
    /// binding of the same key.
    pub fn push_mapitem(&mut self, key: &str, value: Item) -> (r: &mut Self)
        ensures
            r@ == (RootV { mapitems: old(self)@.mapitems.insert(key@, value@), ..old(self)@ }),
            *final(self) == *final(r),
    {
        self.mapitems.insert(key, value);
        self
    }

    /// Binds `key` to the supplier's item in `mapitems`.
    pub fn push_mapitem_with<F: FnOnce() -> Item>(&mut self, key: &str, value: F) -> (r: &mut Self)
        requires
            call_requires(value, ()),
        ensures
            exists|i: Item|
                #[trigger] call_ensures(value, (), i) && r@ == (RootV {
                    mapitems: old(self)@.mapitems.insert(key@, i@),
                    ..old(self)@
                }),
            *final(self) == *final(r),
    {
        let produced = value();
        self.push_mapitem(key, produced)
    }

    /// Builds a default item, hands it to the mutator, and binds `key` to
    /// the result in `mapitems`.
    pub fn push_mapitem_with_default<F: FnOnce(Item) -> Item>(&mut self, key: &str, f: F) -> (r:
        &mut Self)
        requires
            forall|i: Item| i@ == ItemV::defaulted() ==> call_requires(f, (i,)),
        ensures
            exists|i: Item, j: Item|
                #[trigger] call_ensures(f, (i,), j) && i@ == ItemV::defaulted() && r@ == (RootV {
                    mapitems: old(self)@.mapitems.insert(key@, j@),
                    ..old(self)@
                }),
            *final(self) == *final(r),
    {
        let item = f(Item::default());
        self.push_mapitem(key, item)
    }
}

impl Item {
    /// Hands a freshly built item to an arbitrary mutator and returns the
    /// mutated item.
    pub fn with<F: FnOnce(Item) -> Item>(self, f: F) -> (r: Item)
        requires
            call_requires(f, (self,)),
        ensures
            call_ensures(f, (self,), r),
    {
        f(self)
    }

    /// Overwrites `number` and hands the item back for further calls.
    pub fn set_number(&mut self, number: u8) -> (r: &mut Self)
        ensures
            r@ == (ItemV { number: number, ..old(self)@ }),
            *final(self) == *final(r),
    {
        self.number = number;
        self
    }
}

} // verus!
