//! The two-entity data model that both construction components build.
//!
//! A [`Root`] aggregate owns scalar fields, optional fields, an ordered
//! sequence of nested [`Item`] values and a mapping from text keys to
//! nested [`Item`] values. A freshly default-constructed aggregate has
//! every field at its zero, empty or absent default; no field is ever
//! partially initialized. The mathematical value of an aggregate is given
//! by its view, [`RootV`] and [`ItemV`].

use crate::strmap::StrMap;
use vstd::prelude::*;

verus! {

/// Mathematical value of an [`Item`]: every field replaced by its
/// specification-level counterpart.
#[verifier::ext_equal]
pub ghost struct ItemV {
    pub number: u8,
    pub boolean: bool,
    pub string: Seq<char>,
    pub opt_string: Option<Seq<char>>,
}

impl ItemV {
    /// The value every field of a fresh [`Item`] holds: zero, false, empty,
    /// or absent.
    pub open spec fn defaulted() -> ItemV {
        ItemV { number: 0, boolean: false, string: Seq::empty(), opt_string: None }
    }
}

/// Mathematical value of a [`Root`]: every field replaced by its
/// specification-level counterpart.
#[verifier::ext_equal]
pub ghost struct RootV {
    pub number: u8,
    pub boolean: bool,
    pub string: Seq<char>,
    pub opt_string: Option<Seq<char>>,
    pub opt_item: Option<ItemV>,
    pub listitems: Seq<ItemV>,
    pub mapitems: Map<Seq<char>, ItemV>,
}

impl RootV {
    /// The value every field of a fresh [`Root`] holds: zero, false, empty,
    /// or absent.
    pub open spec fn defaulted() -> RootV {
        RootV {
            number: 0,
            boolean: false,
            string: Seq::empty(),
            opt_string: None,
            opt_item: None,
            listitems: Seq::empty(),
            mapitems: Map::empty(),
        }
    }
}

/// Sub-item for the [`Root`] data structure.
#[derive(Debug, PartialEq)]
pub struct Item {
    pub number: u8,
    pub boolean: bool,
    pub string: String,
    pub opt_string: Option<String>,
}

impl View for Item {
    type V = ItemV;

    open spec fn view(&self) -> ItemV {
        ItemV {
            number: self.number,
            boolean: self.boolean,
            string: self.string@,
            opt_string: self.opt_string.deep_view(),
        }
    }
}

impl DeepView for Item {
    type V = ItemV;

    open spec fn deep_view(&self) -> ItemV {
        self.view()
    }
}

impl Default for Item {
    /// A fresh item: every field at its zero, empty or absent default.
    fn default() -> (r: Item)
        ensures
            r@ == ItemV::defaulted(),
    {
        Item { number: 0, boolean: false, string: String::new(), opt_string: None }
    }
}

/// Root data structure: the aggregate under construction.
#[derive(Debug, PartialEq)]
pub struct Root {
    pub number: u8,
    pub boolean: bool,
    pub string: String,
    pub opt_string: Option<String>,
    pub opt_item: Option<Item>,
    pub listitems: Vec<Item>,
    pub mapitems: StrMap<Item>,
}

impl View for Root {
    type V = RootV;

    open spec fn view(&self) -> RootV {
        RootV {
            number: self.number,
            boolean: self.boolean,
            string: self.string@,
            opt_string: self.opt_string.deep_view(),
            opt_item: self.opt_item.deep_view(),
            listitems: self.listitems.deep_view(),
            mapitems: self.mapitems@,
        }
    }
}

impl Default for Root {
    /// A fresh aggregate: every field at its zero, empty or absent default.
    fn default() -> (r: Root)
        ensures
            r@ == RootV::defaulted(),
    {
        Root {
            number: 0,
            boolean: false,
            string: String::new(),
            opt_string: None,
            opt_item: None,
            listitems: Vec::new(),
            mapitems: StrMap::new(),
        }
    }
}

} // verus!
