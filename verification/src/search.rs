//! The walk that finds what a selector names.
//!
//! A search stands at one level of the tree and at the segment of the
//! selector for that level. A declaration that the segment does not ask for
//! is passed over with all that is in it. One that the last segment asks
//! for is a result. One that an earlier segment asks for is searched one
//! level down, and what is found in it takes over its conditional
//! compilation. A trait is searched among its members, which cannot stand
//! alone: members that the last segment asks for come back inside a copy of
//! the trait that holds them and no others.

use crate::selector::{SegmentView, Selector, SelectorSegment};
use crate::item::{contents_of_item, lemma_leading_docs_bound, splice_attrs};
use crate::tree::{
    attrs_view, clone_attrs, items_view, lemma_items_view_add, lemma_items_view_push,
    trait_items_view, Attribute, AttributeView, File, FileView, Item, ItemTrait, ItemTraitView,
    ItemView, TraitItem, TraitItemView,
};
use vstd::prelude::*;

verus! {

/// Whether `term` asks for a declaration of this name. It asks for none
/// without a name.
pub open spec fn is_named(name: Option<Seq<char>>, term: SegmentView) -> bool {
    match name {
        Some(own) => term.matches(own),
        None => false,
    }
}

/// Each of `found` after it took `attrs` over from a container.
pub open spec fn inherit_all(found: Seq<ItemView>, attrs: Seq<AttributeView>) -> Seq<ItemView> {
    found.map_values(|item: ItemView| item.add_attrs(attrs))
}

/// What a search at level `depth` finds in one declaration.
pub open spec fn search_item(query: Seq<SegmentView>, depth: nat, item: ItemView) -> Seq<ItemView>
    decreases query.len() - depth, 1nat, 0nat,
{
    if depth >= query.len() || !is_named(item.name(), query[depth as int]) {
        Seq::empty()
    } else if depth + 1 == query.len() {
        seq![item]
    } else {
        match item {
            ItemView::Trait(item_trait) => search_trait(query, depth + 1, item_trait),
            _ => inherit_all(search_deeper(query, depth, item), item.cfg_attrs()),
        }
    }
}

/// What a search at level `depth` finds in a list of declarations: what it
/// finds in each, in the order of the list.
pub open spec fn search_items(
    query: Seq<SegmentView>,
    depth: nat,
    items: Seq<ItemView>,
) -> Seq<ItemView>
    decreases query.len() - depth, 2nat, items.len(),
{
    if items.len() == 0 {
        Seq::empty()
    } else {
        search_items(query, depth, items.drop_last()) + search_item(query, depth, items.last())
    }
}

/// What a new search finds one level below `depth`, in what `item` holds.
/// Below the last segment there is nothing to look for.
pub open spec fn search_deeper(
    query: Seq<SegmentView>,
    depth: nat,
    item: ItemView,
) -> Seq<ItemView>
    decreases query.len() - depth, 0nat, 0nat,
{
    if depth + 1 < query.len() {
        search_items(query, depth + 1, item.contents())
    } else {
        Seq::empty()
    }
}

/// The member itself, where a search at level `depth` stands on the last
/// segment and the segment asks for the member.
pub open spec fn member_hits(
    query: Seq<SegmentView>,
    depth: nat,
    member: TraitItemView,
) -> Seq<TraitItemView> {
    if depth + 1 == query.len() && is_named(member.name(), query[depth as int]) {
        seq![member]
    } else {
        Seq::empty()
    }
}

/// What is found inside a member, where a search at level `depth` stands on
/// an earlier segment that asks for the member: what a search one level
/// down finds in the member as a declaration of its own, and nothing where
/// it cannot be one.
pub open spec fn member_free(
    query: Seq<SegmentView>,
    depth: nat,
    member: TraitItemView,
) -> Seq<ItemView>
    decreases query.len() - depth, 1nat, 0nat,
{
    if depth + 1 < query.len() && is_named(member.name(), query[depth as int]) {
        match member.to_item() {
            Some(child) => search_deeper(query, depth, child),
            None => Seq::empty(),
        }
    } else {
        Seq::empty()
    }
}

/// The members of a trait that a search at level `depth` finds themselves.
pub open spec fn trait_hits(
    query: Seq<SegmentView>,
    depth: nat,
    members: Seq<TraitItemView>,
) -> Seq<TraitItemView>
    decreases members.len(),
{
    if members.len() == 0 {
        Seq::empty()
    } else {
        trait_hits(query, depth, members.drop_last()) + member_hits(
            query,
            depth,
            members.last(),
        )
    }
}

/// What a search at level `depth` finds inside the members of a trait.
pub open spec fn trait_free(
    query: Seq<SegmentView>,
    depth: nat,
    members: Seq<TraitItemView>,
) -> Seq<ItemView>
    decreases query.len() - depth, 2nat, members.len(),
{
    if members.len() == 0 {
        Seq::empty()
    } else {
        trait_free(query, depth, members.drop_last()) + member_free(
            query,
            depth,
            members.last(),
        )
    }
}

/// What a trait gives once its members were searched: the trait with `hits`
/// as its only members, unless there are none, and then `free`.
pub open spec fn trait_outcome(
    item_trait: ItemTraitView,
    hits: Seq<TraitItemView>,
    free: Seq<ItemView>,
) -> Seq<ItemView> {
    if hits.len() == 0 {
        free
    } else {
        seq![
            ItemView::Trait(
                ItemTraitView {
                    id: item_trait.id,
                    attrs: item_trait.attrs,
                    ident: item_trait.ident,
                    items: hits,
                },
            ),
        ] + free
    }
}

/// What a search at level `depth` finds among the members of a trait.
pub open spec fn search_trait(
    query: Seq<SegmentView>,
    depth: nat,
    item_trait: ItemTraitView,
) -> Seq<ItemView>
    decreases query.len() - depth, 3nat, 0nat,
{
    trait_outcome(
        item_trait,
        trait_hits(query, depth, item_trait.items),
        trait_free(query, depth, item_trait.items),
    )
}

/// What a selector finds in a file: what a search from the top finds in the
/// declarations at the file's top level.
pub open spec fn select_in(query: Seq<SegmentView>, file: FileView) -> Seq<ItemView> {
    search_items(query, 0, file.items)
}

/// A search is stable: what one selector finds in one file is the same
/// list, in the same order, however often it is applied.
pub proof fn lemma_select_is_stable(
    selector: Selector,
    file: File,
    first: Vec<Item>,
    second: Vec<Item>,
)
    requires
        items_view(first@) == select_in(selector@, file@),
        items_view(second@) == select_in(selector@, file@),
    ensures
        items_view(first@) == items_view(second@),
        first@.len() == second@.len(),
        forall|i: int| 0 <= i < first@.len() ==> first@[i]@ == second@[i]@,
{
    assert(items_view(first@).len() == first@.len());
    assert(items_view(second@).len() == second@.len());
    assert forall|i: int| 0 <= i < first@.len() implies first@[i]@ == second@[i]@ by {
        assert(items_view(first@)[i] == first@[i]@);
        assert(items_view(second@)[i] == second@[i]@);
    }
}

/// Whether `found` is what a selector's last segment asks for: a
/// declaration of a name that the segment asks for, or a trait that the
/// segment before it asks for, cut down to members that the last one asks
/// for, of which there is at least one.
pub open spec fn is_asked_for(query: Seq<SegmentView>, found: ItemView) -> bool {
    ||| is_named(found.name(), query.last())
    ||| found matches ItemView::Trait(item_trait) && query.len() >= 2 && is_named(
        Some(item_trait.ident),
        query[query.len() - 2],
    ) && item_trait.items.len() > 0 && forall|i: int|
        0 <= i < item_trait.items.len() ==> is_named(
            (#[trigger] item_trait.items[i]).name(),
            query.last(),
        )
}

/// Whether each of `found` is what the selector's last segment asks for.
pub open spec fn all_asked_for(query: Seq<SegmentView>, found: Seq<ItemView>) -> bool {
    forall|i: int| 0 <= i < found.len() ==> is_asked_for(query, #[trigger] found[i])
}

/// Taking attributes over changes neither the handle nor the name of a
/// declaration nor, for a trait, its members.
pub proof fn lemma_add_attrs_keeps(
    query: Seq<SegmentView>,
    item: ItemView,
    attrs: Seq<AttributeView>,
)
    ensures
        item.add_attrs(attrs).id() == item.id(),
        item.add_attrs(attrs).name() == item.name(),
        is_asked_for(query, item) ==> is_asked_for(query, item.add_attrs(attrs)),
{
}

/// The members that a search of a trait finds themselves are asked for by
/// the last segment, on which the search then stands.
pub proof fn lemma_trait_hits_asked_for(
    query: Seq<SegmentView>,
    depth: nat,
    members: Seq<TraitItemView>,
)
    ensures
        trait_hits(query, depth, members).len() > 0 ==> depth + 1 == query.len(),
        forall|i: int|
            0 <= i < trait_hits(query, depth, members).len() ==> is_named(
                (#[trigger] trait_hits(query, depth, members)[i]).name(),
                query.last(),
            ),
    decreases members.len(),
{
    if members.len() > 0 {
        lemma_trait_hits_asked_for(query, depth, members.drop_last());
    }
}

/// Everything that a search finds in a declaration is asked for by the last
/// segment of the selector.
pub proof fn lemma_search_item_asked_for(query: Seq<SegmentView>, depth: nat, item: ItemView)
    ensures
        all_asked_for(query, search_item(query, depth, item)),
    decreases query.len() - depth, 1nat, 0nat,
{
    if depth < query.len() && is_named(item.name(), query[depth as int]) && depth + 1
        < query.len() {
        match item {
            ItemView::Trait(item_trait) => {
                lemma_trait_hits_asked_for(query, depth + 1, item_trait.items);
                lemma_trait_free_asked_for(query, depth + 1, item_trait.items);
            },
            _ => {
                lemma_search_deeper_asked_for(query, depth, item);
                let below = search_deeper(query, depth, item);
                let found = inherit_all(below, item.cfg_attrs());
                assert forall|i: int| 0 <= i < found.len() implies is_asked_for(
                    query,
                    #[trigger] found[i],
                ) by {
                    lemma_add_attrs_keeps(query, below[i], item.cfg_attrs());
                }
            },
        }
    }
}

/// Everything that a search finds in a list of declarations is asked for by
/// the last segment of the selector.
pub proof fn lemma_search_items_asked_for(
    query: Seq<SegmentView>,
    depth: nat,
    items: Seq<ItemView>,
)
    ensures
        all_asked_for(query, search_items(query, depth, items)),
    decreases query.len() - depth, 2nat, items.len(),
{
    if items.len() > 0 {
        lemma_search_items_asked_for(query, depth, items.drop_last());
        lemma_search_item_asked_for(query, depth, items.last());
    }
}

/// Everything that a search finds one level down is asked for by the last
/// segment of the selector.
pub proof fn lemma_search_deeper_asked_for(query: Seq<SegmentView>, depth: nat, item: ItemView)
    ensures
        all_asked_for(query, search_deeper(query, depth, item)),
    decreases query.len() - depth, 0nat, 0nat,
{
    if depth + 1 < query.len() {
        lemma_search_items_asked_for(query, depth + 1, item.contents());
    }
}

/// Everything that a search finds inside the members of a trait is asked
/// for by the last segment of the selector.
pub proof fn lemma_trait_free_asked_for(
    query: Seq<SegmentView>,
    depth: nat,
    members: Seq<TraitItemView>,
)
    ensures
        all_asked_for(query, trait_free(query, depth, members)),
    decreases query.len() - depth, 2nat, members.len(),
{
    if members.len() > 0 {
        lemma_trait_free_asked_for(query, depth, members.drop_last());
        let member = members.last();
        if depth + 1 < query.len() && is_named(member.name(), query[depth as int]) {
            match member.to_item() {
                Some(child) => {
                    lemma_search_deeper_asked_for(query, depth, child);
                },
                None => {},
            }
        }
        assert(all_asked_for(query, member_free(query, depth, member)));
    }
}

/// A selector finds nothing but what it names: every result is asked for by
/// the selector's last segment.
pub proof fn lemma_select_finds_what_is_asked_for(query: Seq<SegmentView>, file: FileView)
    ensures
        all_asked_for(query, select_in(query, file)),
{
    lemma_search_items_asked_for(query, 0, file.items);
}

/// What [`search_items`] finds with one declaration more.
pub proof fn lemma_search_items_step(
    query: Seq<SegmentView>,
    depth: nat,
    items: Seq<ItemView>,
    i: int,
)
    requires
        0 <= i < items.len(),
    ensures
        search_items(query, depth, items.take(i + 1)) == search_items(
            query,
            depth,
            items.take(i),
        ) + search_item(query, depth, items[i]),
{
    assert(items.take(i + 1).drop_last() =~= items.take(i));
}

/// What [`trait_hits`] finds with one member more.
pub proof fn lemma_trait_hits_step(
    query: Seq<SegmentView>,
    depth: nat,
    members: Seq<TraitItemView>,
    i: int,
)
    requires
        0 <= i < members.len(),
    ensures
        trait_hits(query, depth, members.take(i + 1)) == trait_hits(
            query,
            depth,
            members.take(i),
        ) + member_hits(query, depth, members[i]),
{
    assert(members.take(i + 1).drop_last() =~= members.take(i));
}

/// What [`trait_free`] finds with one member more.
pub proof fn lemma_trait_free_step(
    query: Seq<SegmentView>,
    depth: nat,
    members: Seq<TraitItemView>,
    i: int,
)
    requires
        0 <= i < members.len(),
    ensures
        trait_free(query, depth, members.take(i + 1)) == trait_free(
            query,
            depth,
            members.take(i),
        ) + member_free(query, depth, members[i]),
{
    assert(members.take(i + 1).drop_last() =~= members.take(i));
}

/// A declaration that takes no attributes over stays as it is.
pub proof fn lemma_add_no_attrs(item: ItemView)
    ensures
        item.add_attrs(Seq::empty()) == item,
{
    match item.attrs() {
        Some(own) => {
            lemma_leading_docs_bound(own);
            assert(splice_attrs(own, Seq::empty()) =~= own);
        },
        None => {},
    }
}

impl Item {
    /// Whether the declaration has a name and `ident` asks for it.
    pub fn is_named(&self, ident: &SelectorSegment) -> (yes: bool)
        ensures
            yes == is_named(self@.name(), ident@),
    {
        if let Some(own) = self.name() {
            ident == own
        } else {
            false
        }
    }
}

impl TraitItem {
    /// Whether the member has a name and `ident` asks for it.
    pub fn is_named(&self, ident: &SelectorSegment) -> (yes: bool)
        ensures
            yes == is_named(self@.name(), ident@),
    {
        if let Some(own) = self.name() {
            ident == own
        } else {
            false
        }
    }
}

/// A search that stands at one level of the tree, with what it has found.
#[derive(Debug)]
pub struct Search<'a> {
    query: &'a Selector,
    depth: usize,
    results: Vec<Item>,
}

impl<'a> Search<'a> {
    /// The segments of the selector that the search follows.
    pub closed spec fn query(&self) -> Seq<SegmentView> {
        self.query@
    }

    /// The level of the tree at which the search stands.
    pub closed spec fn depth(&self) -> nat {
        self.depth as nat
    }

    /// What the search has found so far, in the order in which it was
    /// found.
    pub closed spec fn found(&self) -> Seq<ItemView> {
        items_view(self.results@)
    }

    /// A new search at the top of the tree, which has found nothing yet.
    pub fn new(query: &'a Selector) -> (search: Self)
        ensures
            search.query() == query@,
            search.depth() == 0,
            search.depth() < search.query().len(),
            search.found() == Seq::<ItemView>::empty(),
    {
        // A selector is never empty, so there is a segment to start on.
        let _segments: usize = query.len();
        let search = Self { query, depth: 0, results: vec![] };
        assert(search.found() =~= Seq::<ItemView>::empty());
        search
    }

    /// Ends the search and hands out what it found.
    pub fn into_results(self) -> (found: Vec<Item>)
        ensures
            items_view(found@) == self.found(),
    {
        self.results
    }

    /// Searches the declarations at the top level of `file`, and adds what
    /// it finds to the results.
    pub fn search_file(&mut self, file: &File)
        requires
            old(self).depth() < old(self).query().len(),
        ensures
            final(self).query() == old(self).query(),
            final(self).depth() == old(self).depth(),
            final(self).found() == old(self).found() + search_items(
                old(self).query(),
                old(self).depth(),
                file@.items,
            ),
    {
        let ghost before = items_view(self.results@);
        let ghost all = file@.items;
        let mut i: usize = 0;
        assert(before + search_items(self.query(), self.depth(), all.take(0)) =~= before);
        while i < file.items.len()
            invariant
                i <= file.items.len(),
                all == items_view(file.items@),
                self.query() == old(self).query(),
                self.depth() == old(self).depth(),
                self.depth() < self.query().len(),
                items_view(self.results@) == before + search_items(
                    self.query(),
                    self.depth(),
                    all.take(i as int),
                ),
            decreases file.items.len() - i,
        {
            proof {
                lemma_search_items_step(self.query(), self.depth(), all, i as int);
            }
            self.visit_item(&file.items[i]);
            i += 1;
        }
        assert(all.take(i as int) =~= all);
    }

    /// The segment for the level at which the search stands.
    fn term(&self) -> (term: &SelectorSegment)
        requires
            self.depth() < self.query().len(),
        ensures
            term@ == self.query()[self.depth() as int],
    {
        self.query.part(self.depth)
    }

    /// Whether the search stands on the last segment, so that what the
    /// segment asks for is a result.
    fn can_match(&self) -> (yes: bool)
        ensures
            yes == (self.depth() + 1 == self.query().len()),
    {
        self.depth == self.query.len() - 1
    }

    /// Starts a new search for the next segment in what `item` holds.
    fn search_deeper(&self, item: &Item) -> (new: Self)
        requires
            self.depth() < self.query().len(),
        ensures
            new.query() == self.query(),
            new.depth() == self.depth() + 1,
            new.found() == search_deeper(self.query(), self.depth(), item@),
        decreases self.query().len() - self.depth(), 0nat,
    {
        let len: usize = self.query.len();
        let mut new = Self { query: self.query, depth: self.depth + 1, results: vec![] };

        if new.depth < len {
            let contents = contents_of_item(item);
            let ghost all = items_view(contents@);
            let mut i: usize = 0;
            assert(search_items(new.query(), new.depth(), all.take(0)) =~= Seq::empty());
            while i < contents.len()
                invariant
                    i <= contents.len(),
                    all == items_view(contents@),
                    new.query() == self.query(),
                    new.depth() == self.depth() + 1,
                    new.depth() < new.query().len(),
                    items_view(new.results@) == search_items(
                        new.query(),
                        new.depth(),
                        all.take(i as int),
                    ),
                decreases contents.len() - i,
            {
                proof {
                    lemma_search_items_step(new.query(), new.depth(), all, i as int);
                }
                new.visit_item(&contents[i]);
                i += 1;
            }
            assert(all.take(i as int) =~= all);
        }
        new
    }

    /// Ends the search: hands out what it found, each result with `attrs`
    /// taken over.
    fn with_attrs(self, attrs: Vec<Attribute>) -> (found: Vec<Item>)
        ensures
            items_view(found@) == inherit_all(self.found(), attrs_view(attrs@)),
    {
        let ghost before = items_view(self.results@);
        let mut results = self.results;
        if attrs.is_empty() {
            proof {
                assert(attrs_view(attrs@) =~= Seq::empty());
                assert forall|j: int| 0 <= j < before.len() implies before[j].add_attrs(
                    Seq::empty(),
                ) == before[j] by {
                    lemma_add_no_attrs(before[j]);
                }
                assert(inherit_all(before, attrs_view(attrs@)) =~= before);
            }
            return results;
        }
        let mut i: usize = 0;
        while i < results.len()
            invariant
                i <= results.len(),
                results@.len() == before.len(),
                forall|j: int|
                    0 <= j < i ==> (#[trigger] results@[j])@ == before[j].add_attrs(
                        attrs_view(attrs@),
                    ),
                forall|j: int| i <= j < results@.len() ==> (#[trigger] results@[j])@ == before[j],
            decreases results.len() - i,
        {
            results[i].add_attrs(clone_attrs(&attrs));
            i += 1;
        }
        assert(items_view(results@) =~= inherit_all(before, attrs_view(attrs@)));
        results
    }

    /// Looks at one declaration and adds what is found to the results: the
    /// declaration itself on the last segment, else what is found in it.
    pub fn visit_item(&mut self, item: &Item)
        requires
            old(self).depth() < old(self).query().len(),
        ensures
            final(self).query() == old(self).query(),
            final(self).depth() == old(self).depth(),
            final(self).found() == old(self).found() + search_item(
                old(self).query(),
                old(self).depth(),
                item@,
            ),
        decreases old(self).query().len() - old(self).depth(), 1nat,
    {
        let ghost before = self.results@;
        let search_term = self.term();

        if !item.is_named(search_term) {
            assert(items_view(before) + Seq::<ItemView>::empty() =~= items_view(before));
            return;
        }
        // On the last segment of the path the declaration is a result.
        if self.can_match() {
            let copy = item.clone();
            self.results.push(copy);
            proof {
                lemma_items_view_push(before, copy);
                assert(items_view(before).push(item@) =~= items_view(before) + seq![item@]);
            }
            return;
        }
        if let Item::Trait(trait_item) = item {
            proof {
                self.query.lemma_len_bounded();
            }
            self.depth += 1;
            let mut new_matches = ItemTraitSearch::new(self).search(trait_item);
            proof {
                lemma_items_view_add(before, new_matches@);
            }
            self.results.append(&mut new_matches);
            self.depth -= 1;
            return;
        }
        let mut found = self.search_deeper(item).with_attrs(item.cfg_attrs());
        proof {
            lemma_items_view_add(before, found@);
        }
        self.results.append(&mut found);
    }
}

/// The search among the members of one trait.
struct ItemTraitSearch<'a, 'b> {
    search: &'b Search<'a>,
    trait_results: Vec<TraitItem>,
    free_results: Vec<Item>,
}

impl<'a, 'b> ItemTraitSearch<'a, 'b> {
    fn new(search: &'b Search<'a>) -> (new: Self)
        ensures
            new.search == search,
            new.trait_results@ == Seq::<TraitItem>::empty(),
            new.free_results@ == Seq::<Item>::empty(),
    {
        Self { search, trait_results: Vec::new(), free_results: Vec::new() }
    }

    /// Searches the members of `item_trait`. Where members were found
    /// themselves, the outcome starts with a copy of the trait that holds
    /// them and nothing else.
    fn search(self, item_trait: &ItemTrait) -> (found: Vec<Item>)
        requires
            self.search.depth() < self.search.query().len(),
        ensures
            items_view(found@) == trait_outcome(
                item_trait@,
                trait_items_view(self.trait_results@) + trait_hits(
                    self.search.query(),
                    self.search.depth(),
                    item_trait@.items,
                ),
                items_view(self.free_results@) + trait_free(
                    self.search.query(),
                    self.search.depth(),
                    item_trait@.items,
                ),
            ),
        decreases self.search.query().len() - self.search.depth(), 3nat,
    {
        let mut this = self;
        let ghost query = this.search.query();
        let ghost depth = this.search.depth();
        let ghost hits = trait_items_view(this.trait_results@);
        let ghost free = items_view(this.free_results@);
        let ghost members = item_trait@.items;
        let mut i: usize = 0;
        proof {
            assert(hits + trait_hits(query, depth, members.take(0)) =~= hits);
            assert(free + trait_free(query, depth, members.take(0)) =~= free);
        }
        while i < item_trait.items.len()
            invariant
                i <= item_trait.items.len(),
                members == trait_items_view(item_trait.items@),
                query == self.search.query(),
                depth == self.search.depth(),
                this.search.query() == query,
                this.search.depth() == depth,
                depth < query.len(),
                trait_items_view(this.trait_results@) == hits + trait_hits(
                    query,
                    depth,
                    members.take(i as int),
                ),
                items_view(this.free_results@) == free + trait_free(
                    query,
                    depth,
                    members.take(i as int),
                ),
            decreases item_trait.items.len() - i,
        {
            proof {
                lemma_trait_hits_step(query, depth, members, i as int);
                lemma_trait_free_step(query, depth, members, i as int);
            }
            this.visit_trait_item(&item_trait.items[i]);
            i += 1;
        }
        assert(members.take(i as int) =~= members);

        if this.trait_results.is_empty() {
            assert(trait_items_view(this.trait_results@).len() == 0);
            return this.free_results;
        }
        let mut result = item_trait.clone();
        result.items = this.trait_results;

        let mut found: Vec<Item> = Vec::new();
        found.push(Item::Trait(result));
        let ghost head = found@;
        let mut free_results = this.free_results;
        proof {
            lemma_items_view_add(head, free_results@);
            assert(items_view(head) =~= seq![Item::Trait(result)@]);
        }
        found.append(&mut free_results);
        found
    }

    /// Looks at one member of the trait: on the last segment a member that
    /// is asked for is kept itself; before it, it is searched as a
    /// declaration of its own, if it can be one.
    fn visit_trait_item(&mut self, item: &TraitItem)
        requires
            old(self).search.depth() < old(self).search.query().len(),
        ensures
            final(self).search == old(self).search,
            trait_items_view(final(self).trait_results@) == trait_items_view(
                old(self).trait_results@,
            ) + member_hits(old(self).search.query(), old(self).search.depth(), item@),
            items_view(final(self).free_results@) == items_view(old(self).free_results@)
                + member_free(old(self).search.query(), old(self).search.depth(), item@),
        decreases old(self).search.query().len() - old(self).search.depth(), 2nat,
    {
        let ghost hits = self.trait_results@;
        let ghost free = self.free_results@;
        proof {
            assert(trait_items_view(hits) + Seq::<TraitItemView>::empty() =~= trait_items_view(
                hits,
            ));
            assert(items_view(free) + Seq::<ItemView>::empty() =~= items_view(free));
        }
        // A member that is not asked for is passed over.
        if !item.is_named(self.search.term()) {
            return;
        }
        if self.search.can_match() {
            let copy = item.clone();
            self.trait_results.push(copy);
            proof {
                assert(trait_items_view(hits.push(copy)) =~= trait_items_view(hits) + seq![
                    item@,
                ]);
            }
        } else if let Some(child) = item.clone().to_item() {
            let child_results = self.search.search_deeper(&child);
            let mut found = child_results.results;
            proof {
                lemma_items_view_add(free, found@);
            }
            self.free_results.append(&mut found);
        }
    }
}

} // verus!
