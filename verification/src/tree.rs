//! The declarations that a selector is applied to.
//!
//! The tree holds what a search reads of each declaration: its kind, its
//! name, its attributes and the declarations nested in it. The kinds are
//! those of `syn`'s `Item`, `TraitItem` and `Stmt`. Everything else that a
//! declaration is made of (signatures, types, bodies of expressions) stays
//! with the caller, who finds it again through the `id` that each node
//! carries. What the numbers are is the caller's affair: nothing here asks
//! that they differ.

use vstd::prelude::*;

verus! {

/// One attribute of a declaration, such as `#[cfg(test)]`.
#[derive(Debug, PartialEq, Eq)]
pub struct Attribute {
    /// The caller's handle for this attribute. A search copies it and never
    /// reads it.
    pub id: usize,
    /// The attribute's path as text: `cfg`, `doc`, `serde`.
    pub path: String,
}

/// A statement of a function body. Only a nested declaration matters to a
/// search.
#[derive(Debug, PartialEq, Eq)]
pub enum Stmt {
    Local,
    Item(Item),
    Expr,
    Semi,
}

/// A member of a trait. It is no declaration by itself, but one with a
/// default can be turned into one.
#[derive(Debug, PartialEq, Eq)]
#[allow(inconsistent_fields)]
pub enum TraitItem {
    /// An associated constant; `default` says whether it has a value.
    Const { id: usize, attrs: Vec<Attribute>, ident: String, default: bool },
    /// A method; `default` holds the statements of its body, if it has one.
    Method { id: usize, attrs: Vec<Attribute>, ident: String, default: Option<Vec<Stmt>> },
    /// An associated type; `default` says whether it has one.
    Type { id: usize, attrs: Vec<Attribute>, ident: String, default: bool },
    Macro { id: usize },
    Verbatim { id: usize },
}

/// A trait with its members.
#[derive(Debug, PartialEq, Eq)]
pub struct ItemTrait {
    pub id: usize,
    pub attrs: Vec<Attribute>,
    pub ident: String,
    pub items: Vec<TraitItem>,
}

/// A declaration. In every variant `id` is the caller's handle for the
/// declaration: a search copies it and never reads it.
#[derive(Debug, PartialEq, Eq)]
#[allow(inconsistent_fields)]
pub enum Item {
    ExternCrate { id: usize, attrs: Vec<Attribute>, ident: String, rename: Option<String> },
    Use { id: usize },
    Static { id: usize, attrs: Vec<Attribute>, ident: String },
    Const { id: usize, attrs: Vec<Attribute>, ident: String },
    /// A function, with the statements of its body.
    Fn { id: usize, attrs: Vec<Attribute>, ident: String, stmts: Vec<Stmt> },
    /// A module; `content` is `None` for `mod name;`.
    Mod { id: usize, attrs: Vec<Attribute>, ident: String, content: Option<Vec<Item>> },
    ForeignMod { id: usize },
    Type { id: usize, attrs: Vec<Attribute>, ident: String },
    Existential { id: usize, attrs: Vec<Attribute>, ident: String },
    Struct { id: usize, attrs: Vec<Attribute>, ident: String },
    Enum { id: usize, attrs: Vec<Attribute>, ident: String },
    Union { id: usize, attrs: Vec<Attribute>, ident: String },
    Trait(ItemTrait),
    TraitAlias { id: usize, attrs: Vec<Attribute>, ident: String },
    Impl { id: usize },
    /// A macro invocation, named only in the `macro_rules! name` form.
    Macro { id: usize, attrs: Vec<Attribute>, ident: Option<String> },
    Macro2 { id: usize, attrs: Vec<Attribute>, ident: String },
    Verbatim { id: usize },
}

/// A whole source file: the declarations at its top level.
#[derive(Debug, PartialEq, Eq)]
pub struct File {
    pub items: Vec<Item>,
}

/// An [`Attribute`] in contracts.
pub struct AttributeView {
    pub id: usize,
    pub path: Seq<char>,
}

/// A [`Stmt`] in contracts.
pub enum StmtView {
    Local,
    Item(ItemView),
    Expr,
    Semi,
}

/// A [`TraitItem`] in contracts.
#[allow(inconsistent_fields)]
pub enum TraitItemView {
    Const { id: usize, attrs: Seq<AttributeView>, ident: Seq<char>, default: bool },
    Method {
        id: usize,
        attrs: Seq<AttributeView>,
        ident: Seq<char>,
        default: Option<Seq<StmtView>>,
    },
    Type { id: usize, attrs: Seq<AttributeView>, ident: Seq<char>, default: bool },
    Macro { id: usize },
    Verbatim { id: usize },
}

/// An [`ItemTrait`] in contracts.
pub struct ItemTraitView {
    pub id: usize,
    pub attrs: Seq<AttributeView>,
    pub ident: Seq<char>,
    pub items: Seq<TraitItemView>,
}

/// An [`Item`] in contracts.
#[allow(inconsistent_fields)]
pub enum ItemView {
    ExternCrate {
        id: usize,
        attrs: Seq<AttributeView>,
        ident: Seq<char>,
        rename: Option<Seq<char>>,
    },
    Use { id: usize },
    Static { id: usize, attrs: Seq<AttributeView>, ident: Seq<char> },
    Const { id: usize, attrs: Seq<AttributeView>, ident: Seq<char> },
    Fn { id: usize, attrs: Seq<AttributeView>, ident: Seq<char>, stmts: Seq<StmtView> },
    Mod { id: usize, attrs: Seq<AttributeView>, ident: Seq<char>, content: Option<Seq<ItemView>> },
    ForeignMod { id: usize },
    Type { id: usize, attrs: Seq<AttributeView>, ident: Seq<char> },
    Existential { id: usize, attrs: Seq<AttributeView>, ident: Seq<char> },
    Struct { id: usize, attrs: Seq<AttributeView>, ident: Seq<char> },
    Enum { id: usize, attrs: Seq<AttributeView>, ident: Seq<char> },
    Union { id: usize, attrs: Seq<AttributeView>, ident: Seq<char> },
    Trait(ItemTraitView),
    TraitAlias { id: usize, attrs: Seq<AttributeView>, ident: Seq<char> },
    Impl { id: usize },
    Macro { id: usize, attrs: Seq<AttributeView>, ident: Option<Seq<char>> },
    Macro2 { id: usize, attrs: Seq<AttributeView>, ident: Seq<char> },
    Verbatim { id: usize },
}

/// A [`File`] in contracts.
pub struct FileView {
    pub items: Seq<ItemView>,
}

impl View for Attribute {
    type V = AttributeView;

    open spec fn view(&self) -> AttributeView {
        AttributeView { id: self.id, path: self.path@ }
    }
}

/// The views of a list of attributes, one for one.
pub open spec fn attrs_view(attrs: Seq<Attribute>) -> Seq<AttributeView> {
    Seq::new(attrs.len(), |i: int| attrs[i]@)
}

/// The views of a list of declarations, one for one.
pub open spec fn items_view(items: Seq<Item>) -> Seq<ItemView>
    decreases items,
{
    Seq::new(
        items.len(),
        |i: int|
            if 0 <= i < items.len() {
                item_view(items[i])
            } else {
                arbitrary()
            },
    )
}

/// The views of a list of statements, one for one.
pub open spec fn stmts_view(stmts: Seq<Stmt>) -> Seq<StmtView>
    decreases stmts,
{
    Seq::new(
        stmts.len(),
        |i: int|
            if 0 <= i < stmts.len() {
                stmt_view(stmts[i])
            } else {
                arbitrary()
            },
    )
}

/// The views of a list of trait members, one for one.
pub open spec fn trait_items_view(items: Seq<TraitItem>) -> Seq<TraitItemView>
    decreases items,
{
    Seq::new(
        items.len(),
        |i: int|
            if 0 <= i < items.len() {
                trait_item_view(items[i])
            } else {
                arbitrary()
            },
    )
}

pub open spec fn stmt_view(stmt: Stmt) -> StmtView
    decreases stmt,
{
    match stmt {
        Stmt::Local => StmtView::Local,
        Stmt::Item(item) => StmtView::Item(item_view(item)),
        Stmt::Expr => StmtView::Expr,
        Stmt::Semi => StmtView::Semi,
    }
}

pub open spec fn trait_item_view(item: TraitItem) -> TraitItemView
    decreases item,
{
    match item {
        TraitItem::Const { id, attrs, ident, default } => TraitItemView::Const {
            id,
            attrs: attrs_view(attrs@),
            ident: ident@,
            default,
        },
        TraitItem::Method { id, attrs, ident, default } => TraitItemView::Method {
            id,
            attrs: attrs_view(attrs@),
            ident: ident@,
            default: match default {
                Some(stmts) => Some(stmts_view(stmts@)),
                None => None,
            },
        },
        TraitItem::Type { id, attrs, ident, default } => TraitItemView::Type {
            id,
            attrs: attrs_view(attrs@),
            ident: ident@,
            default,
        },
        TraitItem::Macro { id } => TraitItemView::Macro { id },
        TraitItem::Verbatim { id } => TraitItemView::Verbatim { id },
    }
}

pub open spec fn item_trait_view(item: ItemTrait) -> ItemTraitView
    decreases item,
{
    ItemTraitView {
        id: item.id,
        attrs: attrs_view(item.attrs@),
        ident: item.ident@,
        items: trait_items_view(item.items@),
    }
}

pub open spec fn item_view(item: Item) -> ItemView
    decreases item,
{
    match item {
        Item::ExternCrate { id, attrs, ident, rename } => ItemView::ExternCrate {
            id,
            attrs: attrs_view(attrs@),
            ident: ident@,
            rename: match rename {
                Some(name) => Some(name@),
                None => None,
            },
        },
        Item::Use { id } => ItemView::Use { id },
        Item::Static { id, attrs, ident } => ItemView::Static {
            id,
            attrs: attrs_view(attrs@),
            ident: ident@,
        },
        Item::Const { id, attrs, ident } => ItemView::Const {
            id,
            attrs: attrs_view(attrs@),
            ident: ident@,
        },
        Item::Fn { id, attrs, ident, stmts } => ItemView::Fn {
            id,
            attrs: attrs_view(attrs@),
            ident: ident@,
            stmts: stmts_view(stmts@),
        },
        Item::Mod { id, attrs, ident, content } => ItemView::Mod {
            id,
            attrs: attrs_view(attrs@),
            ident: ident@,
            content: match content {
                Some(items) => Some(items_view(items@)),
                None => None,
            },
        },
        Item::ForeignMod { id } => ItemView::ForeignMod { id },
        Item::Type { id, attrs, ident } => ItemView::Type {
            id,
            attrs: attrs_view(attrs@),
            ident: ident@,
        },
        Item::Existential { id, attrs, ident } => ItemView::Existential {
            id,
            attrs: attrs_view(attrs@),
            ident: ident@,
        },
        Item::Struct { id, attrs, ident } => ItemView::Struct {
            id,
            attrs: attrs_view(attrs@),
            ident: ident@,
        },
        Item::Enum { id, attrs, ident } => ItemView::Enum {
            id,
            attrs: attrs_view(attrs@),
            ident: ident@,
        },
        Item::Union { id, attrs, ident } => ItemView::Union {
            id,
            attrs: attrs_view(attrs@),
            ident: ident@,
        },
        Item::Trait(item) => ItemView::Trait(item_trait_view(item)),
        Item::TraitAlias { id, attrs, ident } => ItemView::TraitAlias {
            id,
            attrs: attrs_view(attrs@),
            ident: ident@,
        },
        Item::Impl { id } => ItemView::Impl { id },
        Item::Macro { id, attrs, ident } => ItemView::Macro {
            id,
            attrs: attrs_view(attrs@),
            ident: match ident {
                Some(name) => Some(name@),
                None => None,
            },
        },
        Item::Macro2 { id, attrs, ident } => ItemView::Macro2 {
            id,
            attrs: attrs_view(attrs@),
            ident: ident@,
        },
        Item::Verbatim { id } => ItemView::Verbatim { id },
    }
}

impl View for Stmt {
    type V = StmtView;

    open spec fn view(&self) -> StmtView {
        stmt_view(*self)
    }
}

impl View for TraitItem {
    type V = TraitItemView;

    open spec fn view(&self) -> TraitItemView {
        trait_item_view(*self)
    }
}

impl View for ItemTrait {
    type V = ItemTraitView;

    open spec fn view(&self) -> ItemTraitView {
        item_trait_view(*self)
    }
}

impl View for Item {
    type V = ItemView;

    open spec fn view(&self) -> ItemView {
        item_view(*self)
    }
}

impl View for File {
    type V = FileView;

    open spec fn view(&self) -> FileView {
        FileView { items: items_view(self.items@) }
    }
}


impl TraitItemView {
    /// The caller's handle for the member.
    pub open spec fn id(self) -> usize {
        match self {
            TraitItemView::Const { id, .. } => id,
            TraitItemView::Method { id, .. } => id,
            TraitItemView::Type { id, .. } => id,
            TraitItemView::Macro { id } => id,
            TraitItemView::Verbatim { id } => id,
        }
    }
}

impl ItemView {
    /// The caller's handle for the declaration.
    pub open spec fn id(self) -> usize {
        match self {
            ItemView::ExternCrate { id, .. } => id,
            ItemView::Use { id } => id,
            ItemView::Static { id, .. } => id,
            ItemView::Const { id, .. } => id,
            ItemView::Fn { id, .. } => id,
            ItemView::Mod { id, .. } => id,
            ItemView::ForeignMod { id } => id,
            ItemView::Type { id, .. } => id,
            ItemView::Existential { id, .. } => id,
            ItemView::Struct { id, .. } => id,
            ItemView::Enum { id, .. } => id,
            ItemView::Union { id, .. } => id,
            ItemView::Trait(item) => item.id,
            ItemView::TraitAlias { id, .. } => id,
            ItemView::Impl { id } => id,
            ItemView::Macro { id, .. } => id,
            ItemView::Macro2 { id, .. } => id,
            ItemView::Verbatim { id } => id,
        }
    }
}

/// The view of a list with one more declaration at its end.
pub proof fn lemma_items_view_push(items: Seq<Item>, item: Item)
    ensures
        items_view(items.push(item)) == items_view(items).push(item@),
{
    assert(items_view(items.push(item)) =~= items_view(items).push(item@));
}

/// The view of two lists of declarations put together.
pub proof fn lemma_items_view_add(first: Seq<Item>, second: Seq<Item>)
    ensures
        items_view(first + second) == items_view(first) + items_view(second),
{
    assert(items_view(first + second) =~= items_view(first) + items_view(second));
}

/// A copy of `attrs`.
pub fn clone_attrs(attrs: &Vec<Attribute>) -> (copy: Vec<Attribute>)
    ensures
        attrs_view(copy@) == attrs_view(attrs@),
{
    let mut copy: Vec<Attribute> = Vec::new();
    let mut i: usize = 0;
    while i < attrs.len()
        invariant
            i <= attrs.len(),
            copy@.len() == i,
            forall|j: int| 0 <= j < i ==> (#[trigger] copy@[j])@ == attrs@[j]@,
        decreases attrs.len() - i,
    {
        copy.push(attrs[i].clone());
        i += 1;
    }
    assert(attrs_view(copy@) =~= attrs_view(attrs@));
    copy
}

/// A copy of `stmts`.
pub fn clone_stmts(stmts: &Vec<Stmt>) -> (copy: Vec<Stmt>)
    ensures
        stmts_view(copy@) == stmts_view(stmts@),
    decreases stmts,
{
    let mut copy: Vec<Stmt> = Vec::new();
    let mut i: usize = 0;
    while i < stmts.len()
        invariant
            i <= stmts.len(),
            copy@.len() == i,
            forall|j: int| 0 <= j < i ==> (#[trigger] copy@[j])@ == stmts@[j]@,
        decreases stmts.len() - i,
    {
        copy.push(stmts[i].clone());
        i += 1;
    }
    assert(stmts_view(copy@) =~= stmts_view(stmts@));
    copy
}

/// A copy of `items`.
pub fn clone_trait_items(items: &Vec<TraitItem>) -> (copy: Vec<TraitItem>)
    ensures
        trait_items_view(copy@) == trait_items_view(items@),
    decreases items,
{
    let mut copy: Vec<TraitItem> = Vec::new();
    let mut i: usize = 0;
    while i < items.len()
        invariant
            i <= items.len(),
            copy@.len() == i,
            forall|j: int| 0 <= j < i ==> (#[trigger] copy@[j])@ == items@[j]@,
        decreases items.len() - i,
    {
        copy.push(items[i].clone());
        i += 1;
    }
    assert(trait_items_view(copy@) =~= trait_items_view(items@));
    copy
}

/// A copy of `items`.
pub fn clone_items(items: &Vec<Item>) -> (copy: Vec<Item>)
    ensures
        items_view(copy@) == items_view(items@),
    decreases items,
{
    let mut copy: Vec<Item> = Vec::new();
    let mut i: usize = 0;
    while i < items.len()
        invariant
            i <= items.len(),
            copy@.len() == i,
            forall|j: int| 0 <= j < i ==> (#[trigger] copy@[j])@ == items@[j]@,
        decreases items.len() - i,
    {
        copy.push(items[i].clone());
        i += 1;
    }
    assert(items_view(copy@) =~= items_view(items@));
    copy
}

impl Clone for Attribute {
    fn clone(&self) -> (copy: Self)
        ensures
            copy@ == self@,
    {
        Attribute { id: self.id, path: self.path.clone() }
    }
}

impl Clone for Stmt {
    fn clone(&self) -> (copy: Self)
        ensures
            copy@ == self@,
        decreases self,
    {
        match self {
            Stmt::Local => Stmt::Local,
            Stmt::Item(item) => Stmt::Item(item.clone()),
            Stmt::Expr => Stmt::Expr,
            Stmt::Semi => Stmt::Semi,
        }
    }
}

impl Clone for TraitItem {
    fn clone(&self) -> (copy: Self)
        ensures
            copy@ == self@,
        decreases self,
    {
        match self {
            TraitItem::Const { id, attrs, ident, default } => TraitItem::Const {
                id: *id,
                attrs: clone_attrs(attrs),
                ident: ident.clone(),
                default: *default,
            },
            TraitItem::Method { id, attrs, ident, default } => TraitItem::Method {
                id: *id,
                attrs: clone_attrs(attrs),
                ident: ident.clone(),
                default: match default {
                    Some(stmts) => Some(clone_stmts(stmts)),
                    None => None,
                },
            },
            TraitItem::Type { id, attrs, ident, default } => TraitItem::Type {
                id: *id,
                attrs: clone_attrs(attrs),
                ident: ident.clone(),
                default: *default,
            },
            TraitItem::Macro { id } => TraitItem::Macro { id: *id },
            TraitItem::Verbatim { id } => TraitItem::Verbatim { id: *id },
        }
    }
}

impl Clone for ItemTrait {
    fn clone(&self) -> (copy: Self)
        ensures
            copy@ == self@,
        decreases self,
    {
        ItemTrait {
            id: self.id,
            attrs: clone_attrs(&self.attrs),
            ident: self.ident.clone(),
            items: clone_trait_items(&self.items),
        }
    }
}

impl Clone for Item {
    fn clone(&self) -> (copy: Self)
        ensures
            copy@ == self@,
        decreases self,
    {
        match self {
            Item::ExternCrate { id, attrs, ident, rename } => Item::ExternCrate {
                id: *id,
                attrs: clone_attrs(attrs),
                ident: ident.clone(),
                rename: match rename {
                    Some(name) => Some(name.clone()),
                    None => None,
                },
            },
            Item::Use { id } => Item::Use { id: *id },
            Item::Static { id, attrs, ident } => Item::Static {
                id: *id,
                attrs: clone_attrs(attrs),
                ident: ident.clone(),
            },
            Item::Const { id, attrs, ident } => Item::Const {
                id: *id,
                attrs: clone_attrs(attrs),
                ident: ident.clone(),
            },
            Item::Fn { id, attrs, ident, stmts } => Item::Fn {
                id: *id,
                attrs: clone_attrs(attrs),
                ident: ident.clone(),
                stmts: clone_stmts(stmts),
            },
            Item::Mod { id, attrs, ident, content } => Item::Mod {
                id: *id,
                attrs: clone_attrs(attrs),
                ident: ident.clone(),
                content: match content {
                    Some(nested) => Some(clone_items(nested)),
                    None => None,
                },
            },
            Item::ForeignMod { id } => Item::ForeignMod { id: *id },
            Item::Type { id, attrs, ident } => Item::Type {
                id: *id,
                attrs: clone_attrs(attrs),
                ident: ident.clone(),
            },
            Item::Existential { id, attrs, ident } => Item::Existential {
                id: *id,
                attrs: clone_attrs(attrs),
                ident: ident.clone(),
            },
            Item::Struct { id, attrs, ident } => Item::Struct {
                id: *id,
                attrs: clone_attrs(attrs),
                ident: ident.clone(),
            },
            Item::Enum { id, attrs, ident } => Item::Enum {
                id: *id,
                attrs: clone_attrs(attrs),
                ident: ident.clone(),
            },
            Item::Union { id, attrs, ident } => Item::Union {
                id: *id,
                attrs: clone_attrs(attrs),
                ident: ident.clone(),
            },
            Item::Trait(item) => Item::Trait(item.clone()),
            Item::TraitAlias { id, attrs, ident } => Item::TraitAlias {
                id: *id,
                attrs: clone_attrs(attrs),
                ident: ident.clone(),
            },
            Item::Impl { id } => Item::Impl { id: *id },
            Item::Macro { id, attrs, ident } => Item::Macro {
                id: *id,
                attrs: clone_attrs(attrs),
                ident: match ident {
                    Some(name) => Some(name.clone()),
                    None => None,
                },
            },
            Item::Macro2 { id, attrs, ident } => Item::Macro2 {
                id: *id,
                attrs: clone_attrs(attrs),
                ident: ident.clone(),
            },
            Item::Verbatim { id } => Item::Verbatim { id: *id },
        }
    }
}

impl Clone for File {
    fn clone(&self) -> (copy: Self)
        ensures
            copy@ == self@,
    {
        File { items: clone_items(&self.items) }
    }
}

impl TraitItem {
    /// The caller's handle for the member.
    pub fn id(&self) -> (id: usize)
        ensures
            id == self@.id(),
    {
        match self {
            TraitItem::Const { id, .. } => *id,
            TraitItem::Method { id, .. } => *id,
            TraitItem::Type { id, .. } => *id,
            TraitItem::Macro { id } => *id,
            TraitItem::Verbatim { id } => *id,
        }
    }
}

impl Item {
    /// The caller's handle for the declaration.
    pub fn id(&self) -> (id: usize)
        ensures
            id == self@.id(),
    {
        match self {
            Item::ExternCrate { id, .. } => *id,
            Item::Use { id } => *id,
            Item::Static { id, .. } => *id,
            Item::Const { id, .. } => *id,
            Item::Fn { id, .. } => *id,
            Item::Mod { id, .. } => *id,
            Item::ForeignMod { id } => *id,
            Item::Type { id, .. } => *id,
            Item::Existential { id, .. } => *id,
            Item::Struct { id, .. } => *id,
            Item::Enum { id, .. } => *id,
            Item::Union { id, .. } => *id,
            Item::Trait(item) => item.id,
            Item::TraitAlias { id, .. } => *id,
            Item::Impl { id } => *id,
            Item::Macro { id, .. } => *id,
            Item::Macro2 { id, .. } => *id,
            Item::Verbatim { id } => *id,
        }
    }
}

} // verus!
