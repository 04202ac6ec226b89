//! What a search reads of a declaration: its name, its attributes, and the
//! declarations inside it.

use crate::tree::{
    attrs_view, clone_items, items_view, lemma_items_view_push, stmts_view, trait_items_view,
    Attribute, AttributeView, Item, ItemTraitView, ItemView, Stmt, StmtView, TraitItem,
    TraitItemView,
};
use vstd::prelude::*;
use vstd::string::*;

verus! {

impl AttributeView {
    /// Whether this is a conditional-compilation attribute: its path is
    /// exactly `cfg`.
    pub open spec fn is_cfg(self) -> bool {
        self.path == "cfg"@
    }

    /// Whether this is a documentation attribute: its path is exactly `doc`.
    pub open spec fn is_doc(self) -> bool {
        self.path == "doc"@
    }
}

impl StmtView {
    /// The declaration that this statement is, if it is one.
    pub open spec fn to_item(self) -> Option<ItemView> {
        match self {
            StmtView::Item(item) => Some(item),
            _ => None,
        }
    }
}

impl TraitItemView {
    /// The name of the member, if it has one.
    pub open spec fn name(self) -> Option<Seq<char>> {
        match self {
            TraitItemView::Method { ident, .. } => Some(ident),
            TraitItemView::Const { ident, .. } => Some(ident),
            TraitItemView::Type { ident, .. } => Some(ident),
            TraitItemView::Macro { .. } => None,
            TraitItemView::Verbatim { .. } => None,
        }
    }

    /// The member as a declaration of its own, under the member's handle:
    /// a constant or a type with its default, a method with its body. A
    /// member without a default, a macro and a verbatim member give none.
    pub open spec fn to_item(self) -> Option<ItemView> {
        match self {
            TraitItemView::Const { id, attrs, ident, default } => if default {
                Some(ItemView::Const { id, attrs, ident })
            } else {
                None
            },
            TraitItemView::Method { id, attrs, ident, default } => match default {
                Some(stmts) => Some(ItemView::Fn { id, attrs, ident, stmts }),
                None => None,
            },
            TraitItemView::Type { id, attrs, ident, default } => if default {
                Some(ItemView::Type { id, attrs, ident })
            } else {
                None
            },
            TraitItemView::Macro { .. } => None,
            TraitItemView::Verbatim { .. } => None,
        }
    }
}

/// The declarations among the statements of a body, in order.
pub open spec fn stmt_items(stmts: Seq<StmtView>) -> Seq<ItemView> {
    stmts.filter_map(|stmt: StmtView| stmt.to_item())
}

/// The members of a trait that can stand as declarations, as such, in order.
pub open spec fn member_items(items: Seq<TraitItemView>) -> Seq<ItemView> {
    items.filter_map(|item: TraitItemView| item.to_item())
}

/// The conditional-compilation attributes among `attrs`, in order.
pub open spec fn cfg_only(attrs: Seq<AttributeView>) -> Seq<AttributeView> {
    attrs.filter(|attr: AttributeView| attr.is_cfg())
}

/// How many documentation attributes stand at the head of `attrs`.
pub open spec fn leading_docs(attrs: Seq<AttributeView>) -> nat
    decreases attrs.len(),
{
    if attrs.len() > 0 && attrs[0].is_doc() {
        1 + leading_docs(attrs.drop_first())
    } else {
        0
    }
}

/// The attribute list of a declaration that takes `inherited` over from a
/// container: its own leading documentation first, then `inherited`, then
/// the rest of its own. The list then reads as attributes are usually
/// written, and what comes from an outer container stands before what came
/// from an inner one.
pub open spec fn splice_attrs(own: Seq<AttributeView>, inherited: Seq<AttributeView>) -> Seq<
    AttributeView,
> {
    let docs = leading_docs(own) as int;
    own.take(docs) + inherited + own.skip(docs)
}

impl ItemView {
    /// The name that a selector compares, if the declaration has one. An
    /// `extern crate` that is renamed goes by its new name.
    pub open spec fn name(self) -> Option<Seq<char>> {
        match self {
            ItemView::ExternCrate { ident, rename, .. } => match rename {
                Some(rename) => Some(rename),
                None => Some(ident),
            },
            ItemView::Use { .. } => None,
            ItemView::Static { ident, .. } => Some(ident),
            ItemView::Const { ident, .. } => Some(ident),
            ItemView::Fn { ident, .. } => Some(ident),
            ItemView::Mod { ident, .. } => Some(ident),
            ItemView::ForeignMod { .. } => None,
            ItemView::Type { ident, .. } => Some(ident),
            ItemView::Existential { ident, .. } => Some(ident),
            ItemView::Struct { ident, .. } => Some(ident),
            ItemView::Enum { ident, .. } => Some(ident),
            ItemView::Union { ident, .. } => Some(ident),
            ItemView::Trait(item) => Some(item.ident),
            ItemView::TraitAlias { ident, .. } => Some(ident),
            ItemView::Impl { .. } => None,
            ItemView::Macro { ident, .. } => ident,
            ItemView::Macro2 { ident, .. } => Some(ident),
            ItemView::Verbatim { .. } => None,
        }
    }

    /// The attributes directly on the declaration, for the kinds that
    /// attributes can be added to.
    pub open spec fn attrs(self) -> Option<Seq<AttributeView>> {
        match self {
            ItemView::ExternCrate { attrs, .. } => Some(attrs),
            ItemView::Use { .. } => None,
            ItemView::Static { attrs, .. } => Some(attrs),
            ItemView::Const { attrs, .. } => Some(attrs),
            ItemView::Fn { attrs, .. } => Some(attrs),
            ItemView::Mod { attrs, .. } => Some(attrs),
            ItemView::ForeignMod { .. } => None,
            ItemView::Type { attrs, .. } => Some(attrs),
            ItemView::Existential { attrs, .. } => Some(attrs),
            ItemView::Struct { attrs, .. } => Some(attrs),
            ItemView::Enum { attrs, .. } => Some(attrs),
            ItemView::Union { attrs, .. } => Some(attrs),
            ItemView::Trait(item) => Some(item.attrs),
            ItemView::TraitAlias { attrs, .. } => Some(attrs),
            ItemView::Impl { .. } => None,
            ItemView::Macro { attrs, .. } => Some(attrs),
            ItemView::Macro2 { attrs, .. } => Some(attrs),
            ItemView::Verbatim { .. } => None,
        }
    }

    /// The same declaration with `new` as its attributes; unchanged where
    /// [`Self::attrs`] is `None`.
    pub open spec fn with_attrs(self, new: Seq<AttributeView>) -> ItemView {
        match self {
            ItemView::ExternCrate { id, attrs, ident, rename } => ItemView::ExternCrate {
                id,
                attrs: new,
                ident,
                rename,
            },
            ItemView::Use { .. } => self,
            ItemView::Static { id, attrs, ident } => ItemView::Static { id, attrs: new, ident },
            ItemView::Const { id, attrs, ident } => ItemView::Const { id, attrs: new, ident },
            ItemView::Fn { id, attrs, ident, stmts } => ItemView::Fn {
                id,
                attrs: new,
                ident,
                stmts,
            },
            ItemView::Mod { id, attrs, ident, content } => ItemView::Mod {
                id,
                attrs: new,
                ident,
                content,
            },
            ItemView::ForeignMod { .. } => self,
            ItemView::Type { id, attrs, ident } => ItemView::Type { id, attrs: new, ident },
            ItemView::Existential { id, attrs, ident } => ItemView::Existential {
                id,
                attrs: new,
                ident,
            },
            ItemView::Struct { id, attrs, ident } => ItemView::Struct { id, attrs: new, ident },
            ItemView::Enum { id, attrs, ident } => ItemView::Enum { id, attrs: new, ident },
            ItemView::Union { id, attrs, ident } => ItemView::Union { id, attrs: new, ident },
            ItemView::Trait(item) => ItemView::Trait(
                ItemTraitView { id: item.id, attrs: new, ident: item.ident, items: item.items },
            ),
            ItemView::TraitAlias { id, attrs, ident } => ItemView::TraitAlias {
                id,
                attrs: new,
                ident,
            },
            ItemView::Impl { .. } => self,
            ItemView::Macro { id, attrs, ident } => ItemView::Macro { id, attrs: new, ident },
            ItemView::Macro2 { id, attrs, ident } => ItemView::Macro2 { id, attrs: new, ident },
            ItemView::Verbatim { .. } => self,
        }
    }

    /// The conditional-compilation attributes directly on the declaration.
    pub open spec fn cfg_attrs(self) -> Seq<AttributeView> {
        match self.attrs() {
            Some(attrs) => cfg_only(attrs),
            None => Seq::empty(),
        }
    }

    /// The declaration after it took `inherited` over from a container.
    pub open spec fn add_attrs(self, inherited: Seq<AttributeView>) -> ItemView {
        match self.attrs() {
            Some(own) => self.with_attrs(splice_attrs(own, inherited)),
            None => self,
        }
    }

    /// The declarations directly inside this one: those among the statements
    /// of a function's body, those of a module, and the members of a trait
    /// that can stand as declarations. Every other kind holds none.
    pub open spec fn contents(self) -> Seq<ItemView> {
        match self {
            ItemView::Fn { stmts, .. } => stmt_items(stmts),
            ItemView::Mod { content, .. } => match content {
                Some(nested) => nested,
                None => Seq::empty(),
            },
            ItemView::Trait(item) => member_items(item.items),
            _ => Seq::empty(),
        }
    }
}

/// What [`stmt_items`] gives for one statement more.
pub proof fn lemma_stmt_items_step(stmts: Seq<StmtView>, i: int)
    requires
        0 <= i < stmts.len(),
    ensures
        stmt_items(stmts.take(i + 1)) == match stmts[i].to_item() {
            Some(item) => stmt_items(stmts.take(i)).push(item),
            None => stmt_items(stmts.take(i)),
        },
{
    stmts.lemma_filter_map_take_succ(|stmt: StmtView| stmt.to_item(), i);
}

/// What [`member_items`] gives for one member more.
pub proof fn lemma_member_items_step(items: Seq<TraitItemView>, i: int)
    requires
        0 <= i < items.len(),
    ensures
        member_items(items.take(i + 1)) == match items[i].to_item() {
            Some(item) => member_items(items.take(i)).push(item),
            None => member_items(items.take(i)),
        },
{
    items.lemma_filter_map_take_succ(|item: TraitItemView| item.to_item(), i);
}

/// What [`cfg_only`] gives for one attribute more.
pub proof fn lemma_cfg_only_step(attrs: Seq<AttributeView>, i: int)
    requires
        0 <= i < attrs.len(),
    ensures
        cfg_only(attrs.take(i + 1)) == if attrs[i].is_cfg() {
            cfg_only(attrs.take(i)).push(attrs[i])
        } else {
            cfg_only(attrs.take(i))
        },
{
    reveal(Seq::filter);
    assert(attrs.take(i + 1).drop_last() =~= attrs.take(i));
}

/// [`leading_docs`] is the place of the first attribute that is not
/// documentation.
pub proof fn lemma_leading_docs(attrs: Seq<AttributeView>, docs: int)
    requires
        0 <= docs <= attrs.len(),
        forall|j: int| 0 <= j < docs ==> attrs[j].is_doc(),
        docs < attrs.len() ==> !attrs[docs].is_doc(),
    ensures
        leading_docs(attrs) == docs,
    decreases attrs.len(),
{
    if docs > 0 {
        let rest = attrs.drop_first();
        assert forall|j: int| 0 <= j < docs - 1 implies rest[j].is_doc() by {
            assert(rest[j] == attrs[j + 1]);
        }
        lemma_leading_docs(rest, docs - 1);
    }
}

/// The documentation at the head of a list is no longer than the list.
pub proof fn lemma_leading_docs_bound(attrs: Seq<AttributeView>)
    ensures
        leading_docs(attrs) <= attrs.len(),
    decreases attrs.len(),
{
    if attrs.len() > 0 && attrs[0].is_doc() {
        lemma_leading_docs_bound(attrs.drop_first());
    }
}

impl Attribute {
    /// Whether this is a conditional-compilation attribute.
    pub fn is_cfg(&self) -> (yes: bool)
        ensures
            yes == self@.is_cfg(),
    {
        self.path == String::from_str("cfg")
    }

    /// Whether this is a documentation attribute.
    pub fn is_doc(&self) -> (yes: bool)
        ensures
            yes == self@.is_doc(),
    {
        self.path == String::from_str("doc")
    }
}

impl Stmt {
    /// The declaration that this statement is, if it is one.
    pub fn to_item(self) -> (item: Option<Item>)
        ensures
            match item {
                Some(item) => self@.to_item() == Some(item@),
                None => self@.to_item() is None,
            },
    {
        if let Stmt::Item(item) = self {
            Some(item)
        } else {
            None
        }
    }
}

impl TraitItem {
    /// The name of the member, if it has one.
    pub fn name(&self) -> (name: Option<&String>)
        ensures
            match name {
                Some(name) => self@.name() == Some(name@),
                None => self@.name() is None,
            },
    {
        match self {
            TraitItem::Method { ident, .. } => Some(ident),
            TraitItem::Const { ident, .. } => Some(ident),
            TraitItem::Type { ident, .. } => Some(ident),
            TraitItem::Macro { .. } => None,
            TraitItem::Verbatim { .. } => None,
        }
    }

    /// Turns the member into a declaration of its own, if it has a
    /// default to stand on.
    pub fn to_item(self) -> (item: Option<Item>)
        ensures
            match item {
                Some(item) => self@.to_item() == Some(item@),
                None => self@.to_item() is None,
            },
    {
        match self {
            TraitItem::Const { id, attrs, ident, default } => if default {
                Some(Item::Const { id, attrs, ident })
            } else {
                None
            },
            TraitItem::Method { id, attrs, ident, default } => match default {
                Some(stmts) => Some(Item::Fn { id, attrs, ident, stmts }),
                None => None,
            },
            TraitItem::Type { id, attrs, ident, default } => if default {
                Some(Item::Type { id, attrs, ident })
            } else {
                None
            },
            TraitItem::Macro { .. } => None,
            TraitItem::Verbatim { .. } => None,
        }
    }
}

/// Places `inherited` in `own`, behind the documentation at its head.
pub fn splice_inherited(own: &mut Vec<Attribute>, inherited: Vec<Attribute>)
    ensures
        attrs_view(final(own)@) == splice_attrs(attrs_view(old(own)@), attrs_view(inherited@)),
{
    let mut docs: usize = 0;
    while docs < own.len() && own[docs].is_doc()
        invariant
            docs <= own.len(),
            forall|j: int| 0 <= j < docs ==> attrs_view(own@)[j].is_doc(),
        decreases own.len() - docs,
    {
        docs += 1;
    }
    proof {
        lemma_leading_docs(attrs_view(own@), docs as int);
    }
    let mut middle = inherited;
    let mut rest = own.split_off(docs);
    own.append(&mut middle);
    own.append(&mut rest);
    assert(attrs_view(own@) =~= splice_attrs(attrs_view(old(own)@), attrs_view(inherited@)));
}

impl Item {
    /// The name that a selector compares, if the declaration has one.
    pub fn name(&self) -> (name: Option<&String>)
        ensures
            match name {
                Some(name) => self@.name() == Some(name@),
                None => self@.name() is None,
            },
    {
        match self {
            Item::ExternCrate { ident, rename, .. } => match rename {
                Some(rename) => Some(rename),
                None => Some(ident),
            },
            Item::Use { .. } => None,
            Item::Static { ident, .. } => Some(ident),
            Item::Const { ident, .. } => Some(ident),
            Item::Fn { ident, .. } => Some(ident),
            Item::Mod { ident, .. } => Some(ident),
            Item::ForeignMod { .. } => None,
            Item::Type { ident, .. } => Some(ident),
            Item::Existential { ident, .. } => Some(ident),
            Item::Struct { ident, .. } => Some(ident),
            Item::Enum { ident, .. } => Some(ident),
            Item::Union { ident, .. } => Some(ident),
            Item::Trait(item) => Some(&item.ident),
            Item::TraitAlias { ident, .. } => Some(ident),
            Item::Impl { .. } => None,
            Item::Macro { ident, .. } => ident.as_ref(),
            Item::Macro2 { ident, .. } => Some(ident),
            Item::Verbatim { .. } => None,
        }
    }

    /// The attributes directly on the declaration.
    pub fn attrs(&self) -> (attrs: Option<&[Attribute]>)
        ensures
            match attrs {
                Some(attrs) => self@.attrs() == Some(attrs_view(attrs@)),
                None => self@.attrs() is None,
            },
    {
        match self {
            Item::ExternCrate { attrs, .. } => Some(attrs.as_slice()),
            Item::Use { .. } => None,
            Item::Static { attrs, .. } => Some(attrs.as_slice()),
            Item::Const { attrs, .. } => Some(attrs.as_slice()),
            Item::Fn { attrs, .. } => Some(attrs.as_slice()),
            Item::Mod { attrs, .. } => Some(attrs.as_slice()),
            Item::ForeignMod { .. } => None,
            Item::Type { attrs, .. } => Some(attrs.as_slice()),
            Item::Existential { attrs, .. } => Some(attrs.as_slice()),
            Item::Struct { attrs, .. } => Some(attrs.as_slice()),
            Item::Enum { attrs, .. } => Some(attrs.as_slice()),
            Item::Union { attrs, .. } => Some(attrs.as_slice()),
            Item::Trait(item) => Some(item.attrs.as_slice()),
            Item::TraitAlias { attrs, .. } => Some(attrs.as_slice()),
            Item::Impl { .. } => None,
            Item::Macro { attrs, .. } => Some(attrs.as_slice()),
            Item::Macro2 { attrs, .. } => Some(attrs.as_slice()),
            Item::Verbatim { .. } => None,
        }
    }

    /// The attributes directly on the declaration, to be changed in place.
    /// What is written through the reference becomes the declaration's
    /// attribute list, and nothing else of the declaration changes.
    pub fn attrs_mut(&mut self) -> (attrs: Option<&mut Vec<Attribute>>)
        ensures
            match attrs {
                Some(attrs) => old(self)@.attrs() == Some(attrs_view(attrs@)) && final(self)@
                    == old(self)@.with_attrs(attrs_view(final(attrs)@)),
                None => old(self)@.attrs() is None && final(self)@ == old(self)@,
            },
    {
        match self {
            Item::ExternCrate { attrs, .. } => Some(attrs),
            Item::Use { .. } => None,
            Item::Static { attrs, .. } => Some(attrs),
            Item::Const { attrs, .. } => Some(attrs),
            Item::Fn { attrs, .. } => Some(attrs),
            Item::Mod { attrs, .. } => Some(attrs),
            Item::ForeignMod { .. } => None,
            Item::Type { attrs, .. } => Some(attrs),
            Item::Existential { attrs, .. } => Some(attrs),
            Item::Struct { attrs, .. } => Some(attrs),
            Item::Enum { attrs, .. } => Some(attrs),
            Item::Union { attrs, .. } => Some(attrs),
            Item::Trait(item) => Some(&mut item.attrs),
            Item::TraitAlias { attrs, .. } => Some(attrs),
            Item::Impl { .. } => None,
            Item::Macro { attrs, .. } => Some(attrs),
            Item::Macro2 { attrs, .. } => Some(attrs),
            Item::Verbatim { .. } => None,
        }
    }

    /// A copy of the conditional-compilation attributes directly on the
    /// declaration, to be handed on to what was found inside it.
    pub fn cfg_attrs(&self) -> (found: Vec<Attribute>)
        ensures
            attrs_view(found@) == self@.cfg_attrs(),
    {
        let mut found: Vec<Attribute> = Vec::new();
        if let Some(attrs) = self.attrs() {
            let mut i: usize = 0;
            while i < attrs.len()
                invariant
                    i <= attrs.len(),
                    attrs_view(found@) == cfg_only(attrs_view(attrs@).take(i as int)),
                decreases attrs.len() - i,
            {
                proof {
                    lemma_cfg_only_step(attrs_view(attrs@), i as int);
                }
                if attrs[i].is_cfg() {
                    found.push(attrs[i].clone());
                }
                i += 1;
            }
            assert(attrs_view(attrs@).take(i as int) =~= attrs_view(attrs@));
        }
        found
    }

    /// Gives the declaration the attributes that it takes over from a
    /// container. A declaration of a kind without attributes stays as it is.
    pub fn add_attrs(&mut self, attrs: Vec<Attribute>)
        ensures
            final(self)@ == old(self)@.add_attrs(attrs_view(attrs@)),
    {
        if let Some(own_attrs) = self.attrs_mut() {
            splice_inherited(own_attrs, attrs);
        }
    }
}

/// The declarations among the statements of a body, copied out in order.
pub fn items_among(stmts: &Vec<Stmt>) -> (found: Vec<Item>)
    ensures
        items_view(found@) == stmt_items(stmts_view(stmts@)),
{
    let mut found: Vec<Item> = Vec::new();
    let mut i: usize = 0;
    while i < stmts.len()
        invariant
            i <= stmts.len(),
            items_view(found@) == stmt_items(stmts_view(stmts@).take(i as int)),
        decreases stmts.len() - i,
    {
        proof {
            lemma_stmt_items_step(stmts_view(stmts@), i as int);
        }
        let ghost before = found@;
        if let Some(item) = stmts[i].clone().to_item() {
            found.push(item);
            proof {
                lemma_items_view_push(before, item);
            }
        }
        i += 1;
    }
    assert(stmts_view(stmts@).take(i as int) =~= stmts_view(stmts@));
    found
}

/// The members of a trait that can stand as declarations, copied out as
/// such, in order.
pub fn items_of_members(members: &Vec<TraitItem>) -> (found: Vec<Item>)
    ensures
        items_view(found@) == member_items(trait_items_view(members@)),
{
    let mut found: Vec<Item> = Vec::new();
    let mut i: usize = 0;
    while i < members.len()
        invariant
            i <= members.len(),
            items_view(found@) == member_items(trait_items_view(members@).take(i as int)),
        decreases members.len() - i,
    {
        proof {
            lemma_member_items_step(trait_items_view(members@), i as int);
        }
        let ghost before = found@;
        if let Some(item) = members[i].clone().to_item() {
            found.push(item);
            proof {
                lemma_items_view_push(before, item);
            }
        }
        i += 1;
    }
    assert(trait_items_view(members@).take(i as int) =~= trait_items_view(members@));
    found
}

/// The declarations directly inside `item`, copied out in order.
pub fn contents_of_item(item: &Item) -> (contents: Vec<Item>)
    ensures
        items_view(contents@) == item@.contents(),
{
    match item {
        Item::ExternCrate { .. } => Vec::new(),
        Item::Use { .. } => Vec::new(),
        Item::Static { .. } => Vec::new(),
        Item::Const { .. } => Vec::new(),
        Item::Fn { stmts, .. } => items_among(stmts),
        Item::Mod { content, .. } => match content {
            Some(nested) => clone_items(nested),
            None => Vec::new(),
        },
        Item::ForeignMod { .. } => Vec::new(),
        Item::Type { .. } => Vec::new(),
        Item::Existential { .. } => Vec::new(),
        Item::Struct { .. } => Vec::new(),
        Item::Enum { .. } => Vec::new(),
        Item::Union { .. } => Vec::new(),
        Item::Trait(item_trait) => items_of_members(&item_trait.items),
        Item::TraitAlias { .. } => Vec::new(),
        Item::Impl { .. } => Vec::new(),
        Item::Macro { .. } => Vec::new(),
        Item::Macro2 { .. } => Vec::new(),
        Item::Verbatim { .. } => Vec::new(),
    }
}

} // verus!
