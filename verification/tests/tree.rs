//! What a declaration shows of itself: name, attributes, contents.

use syn_select::item::{contents_of_item, items_among, items_of_members, splice_inherited};
use syn_select::tree::{clone_attrs, clone_items, clone_stmts, clone_trait_items};
use syn_select::{Attribute, File, Item, ItemTrait, Stmt, TraitItem};

fn at(id: usize, path: &str) -> Attribute {
    Attribute { id, path: path.to_string() }
}

fn name(text: &str) -> String {
    text.to_string()
}

fn paths(attrs: &[Attribute]) -> Vec<&str> {
    attrs.iter().map(|attr| attr.path.as_str()).collect()
}

fn ids(attrs: &[Attribute]) -> Vec<usize> {
    attrs.iter().map(|attr| attr.id).collect()
}

fn one_of_each_kind() -> Vec<Item> {
    vec![
        Item::ExternCrate { id: 0, attrs: vec![at(100, "a0")], ident: name("k0"), rename: None },
        Item::Use { id: 1 },
        Item::Static { id: 2, attrs: vec![at(102, "a2")], ident: name("k2") },
        Item::Const { id: 3, attrs: vec![at(103, "a3")], ident: name("k3") },
        Item::Fn { id: 4, attrs: vec![at(104, "a4")], ident: name("k4"), stmts: vec![] },
        Item::Mod { id: 5, attrs: vec![at(105, "a5")], ident: name("k5"), content: None },
        Item::ForeignMod { id: 6 },
        Item::Type { id: 7, attrs: vec![at(107, "a7")], ident: name("k7") },
        Item::Existential { id: 8, attrs: vec![at(108, "a8")], ident: name("k8") },
        Item::Struct { id: 9, attrs: vec![at(109, "a9")], ident: name("k9") },
        Item::Enum { id: 10, attrs: vec![at(110, "a10")], ident: name("k10") },
        Item::Union { id: 11, attrs: vec![at(111, "a11")], ident: name("k11") },
        Item::Trait(ItemTrait {
            id: 12,
            attrs: vec![at(112, "a12")],
            ident: name("k12"),
            items: vec![],
        }),
        Item::TraitAlias { id: 13, attrs: vec![at(113, "a13")], ident: name("k13") },
        Item::Impl { id: 14 },
        Item::Macro { id: 15, attrs: vec![at(115, "a15")], ident: Some(name("k15")) },
        Item::Macro2 { id: 16, attrs: vec![at(116, "a16")], ident: name("k16") },
        Item::Verbatim { id: 17 },
    ]
}

const WITHOUT_NAME: [usize; 4] = [1, 6, 14, 17];

#[test]
fn every_kind_has_its_handle() {
    for (i, item) in one_of_each_kind().iter().enumerate() {
        assert_eq!(item.id(), i);
    }
}

#[test]
fn every_kind_but_four_has_a_name() {
    for (i, item) in one_of_each_kind().iter().enumerate() {
        if WITHOUT_NAME.contains(&i) {
            assert_eq!(item.name(), None, "kind {}", i);
        } else {
            assert_eq!(item.name(), Some(&format!("k{}", i)), "kind {}", i);
        }
    }
}

#[test]
fn a_renamed_extern_crate_goes_by_its_new_name() {
    let item = Item::ExternCrate {
        id: 0,
        attrs: vec![],
        ident: name("serde"),
        rename: Some(name("s")),
    };
    assert_eq!(item.name(), Some(&name("s")));
}

#[test]
fn a_macro_call_without_a_name_has_none() {
    let item = Item::Macro { id: 0, attrs: vec![], ident: None };
    assert_eq!(item.name(), None);
}

#[test]
fn every_kind_but_four_has_attributes() {
    for (i, item) in one_of_each_kind().iter().enumerate() {
        match item.attrs() {
            None => assert!(WITHOUT_NAME.contains(&i), "kind {}", i),
            Some(attrs) => {
                assert!(!WITHOUT_NAME.contains(&i), "kind {}", i);
                assert_eq!(ids(attrs), vec![100 + i]);
                assert_eq!(paths(attrs), vec![format!("a{}", i)]);
            }
        }
    }
}

#[test]
fn attributes_are_changed_in_place() {
    for (i, item) in one_of_each_kind().iter_mut().enumerate() {
        let before = item.clone();
        match item.attrs_mut() {
            None => {
                assert!(WITHOUT_NAME.contains(&i), "kind {}", i);
                assert_eq!(*item, before);
            }
            Some(attrs) => {
                assert_eq!(ids(attrs), vec![100 + i]);
                attrs.push(at(7, "new"));
                assert_eq!(ids(item.attrs().unwrap()), vec![100 + i, 7]);
                assert_eq!(item.name(), before.name());
                assert_eq!(item.id(), before.id());
            }
        }
    }
}

#[test]
fn only_cfg_counts_as_conditional_compilation() {
    let item = Item::Struct {
        id: 0,
        attrs: vec![
            at(1, "doc"),
            at(2, "cfg"),
            at(3, "cfg_attr"),
            at(4, "derive"),
            at(5, "cfg"),
            at(6, "::cfg"),
            at(7, "a::cfg"),
            at(8, "Cfg"),
            at(9, "cf"),
            at(10, ""),
        ],
        ident: name("S"),
    };
    assert_eq!(ids(&item.cfg_attrs()), vec![2, 5]);
    assert!(at(0, "cfg").is_cfg());
    assert!(!at(0, "doc").is_cfg());
    assert!(at(0, "doc").is_doc());
    assert!(!at(0, "docs").is_doc());
    assert!(!at(0, "cfg").is_doc());
}

#[test]
fn kinds_without_attributes_have_no_cfg() {
    for item in one_of_each_kind() {
        assert_eq!(item.cfg_attrs(), vec![]);
    }
    assert_eq!(Item::Use { id: 1 }.cfg_attrs(), vec![]);
}

fn with_added(own: Vec<Attribute>, added: Vec<Attribute>) -> Vec<usize> {
    let mut item = Item::Struct { id: 0, attrs: own, ident: name("S") };
    item.add_attrs(added);
    ids(item.attrs().unwrap())
}

#[test]
fn inherited_attributes_follow_the_leading_documentation() {
    let own = vec![at(1, "doc"), at(2, "serde"), at(3, "cfg")];
    assert_eq!(with_added(own, vec![at(9, "cfg")]), vec![1, 9, 2, 3]);
}

#[test]
fn inherited_attributes_lead_where_no_documentation_does() {
    assert_eq!(with_added(vec![at(1, "derive"), at(2, "doc")], vec![at(9, "cfg")]), vec![9, 1, 2]);
    assert_eq!(with_added(vec![], vec![at(8, "cfg"), at(9, "cfg")]), vec![8, 9]);
}

#[test]
fn inherited_attributes_close_a_list_of_documentation() {
    assert_eq!(with_added(vec![at(1, "doc"), at(2, "doc")], vec![at(9, "cfg")]), vec![1, 2, 9]);
}

#[test]
fn inherited_attributes_keep_their_own_order() {
    let own = vec![at(1, "doc"), at(2, "doc"), at(3, "derive"), at(4, "doc")];
    assert_eq!(with_added(own, vec![at(8, "cfg"), at(9, "cfg")]), vec![1, 2, 8, 9, 3, 4]);
}

#[test]
fn adding_nothing_changes_nothing() {
    assert_eq!(with_added(vec![at(1, "doc"), at(2, "x")], vec![]), vec![1, 2]);
}

#[test]
fn every_kind_with_attributes_takes_more() {
    for (i, item) in one_of_each_kind().iter_mut().enumerate() {
        let before = item.clone();
        item.add_attrs(vec![at(9, "cfg")]);
        if WITHOUT_NAME.contains(&i) {
            assert_eq!(*item, before);
        } else {
            assert_eq!(ids(item.attrs().unwrap()), vec![9, 100 + i]);
            assert_eq!(item.name(), before.name());
        }
    }
}

#[test]
fn attributes_are_spliced_into_a_plain_list() {
    let mut own = vec![at(1, "doc"), at(2, "b")];
    splice_inherited(&mut own, vec![at(3, "c")]);
    assert_eq!(own, vec![at(1, "doc"), at(3, "c"), at(2, "b")]);
}

fn member_kinds() -> Vec<TraitItem> {
    vec![
        TraitItem::Const { id: 0, attrs: vec![at(10, "a")], ident: name("A"), default: true },
        TraitItem::Const { id: 1, attrs: vec![], ident: name("B"), default: false },
        TraitItem::Method {
            id: 2,
            attrs: vec![at(12, "b")],
            ident: name("c"),
            default: Some(vec![Stmt::Semi, Stmt::Item(Item::Use { id: 20 })]),
        },
        TraitItem::Method { id: 3, attrs: vec![], ident: name("d"), default: None },
        TraitItem::Type { id: 4, attrs: vec![at(14, "c")], ident: name("E"), default: true },
        TraitItem::Type { id: 5, attrs: vec![], ident: name("F"), default: false },
        TraitItem::Macro { id: 6 },
        TraitItem::Verbatim { id: 7 },
    ]
}

#[test]
fn members_have_handles_and_most_have_names() {
    let names: Vec<Option<String>> =
        member_kinds().iter().map(|member| member.name().cloned()).collect();
    assert_eq!(
        names,
        vec![
            Some(name("A")),
            Some(name("B")),
            Some(name("c")),
            Some(name("d")),
            Some(name("E")),
            Some(name("F")),
            None,
            None
        ]
    );
    for (i, member) in member_kinds().iter().enumerate() {
        assert_eq!(member.id(), i);
    }
}

#[test]
fn a_member_with_a_default_becomes_a_declaration() {
    let made: Vec<Option<Item>> =
        member_kinds().into_iter().map(|member| member.to_item()).collect();
    assert_eq!(
        made,
        vec![
            Some(Item::Const { id: 0, attrs: vec![at(10, "a")], ident: name("A") }),
            None,
            Some(Item::Fn {
                id: 2,
                attrs: vec![at(12, "b")],
                ident: name("c"),
                stmts: vec![Stmt::Semi, Stmt::Item(Item::Use { id: 20 })],
            }),
            None,
            Some(Item::Type { id: 4, attrs: vec![at(14, "c")], ident: name("E") }),
            None,
            None,
            None,
        ]
    );
}

#[test]
fn a_method_with_an_empty_body_becomes_a_function() {
    let member =
        TraitItem::Method { id: 1, attrs: vec![], ident: name("f"), default: Some(vec![]) };
    assert_eq!(
        member.to_item(),
        Some(Item::Fn { id: 1, attrs: vec![], ident: name("f"), stmts: vec![] })
    );
}

#[test]
fn only_a_declaration_statement_is_a_declaration() {
    assert_eq!(Stmt::Local.to_item(), None);
    assert_eq!(Stmt::Expr.to_item(), None);
    assert_eq!(Stmt::Semi.to_item(), None);
    assert_eq!(Stmt::Item(Item::Impl { id: 3 }).to_item(), Some(Item::Impl { id: 3 }));
}

#[test]
fn a_function_holds_the_declarations_of_its_body() {
    let inner = Item::Struct { id: 2, attrs: vec![], ident: name("S") };
    let other = Item::Use { id: 3 };
    let stmts = vec![
        Stmt::Local,
        Stmt::Item(inner.clone()),
        Stmt::Expr,
        Stmt::Item(other.clone()),
        Stmt::Semi,
    ];
    assert_eq!(items_among(&stmts), vec![inner.clone(), other.clone()]);
    let item = Item::Fn { id: 1, attrs: vec![], ident: name("f"), stmts };
    assert_eq!(contents_of_item(&item), vec![inner, other]);
}

#[test]
fn a_module_holds_its_declarations() {
    let inner = vec![
        Item::Struct { id: 2, attrs: vec![], ident: name("S") },
        Item::Mod { id: 3, attrs: vec![], ident: name("m"), content: Some(vec![]) },
    ];
    let item =
        Item::Mod { id: 1, attrs: vec![], ident: name("m"), content: Some(inner.clone()) };
    assert_eq!(contents_of_item(&item), inner);
    let outline = Item::Mod { id: 1, attrs: vec![], ident: name("m"), content: None };
    assert_eq!(contents_of_item(&outline), vec![]);
}

#[test]
fn a_trait_holds_the_members_that_stand_alone() {
    let expected: Vec<Item> =
        member_kinds().into_iter().filter_map(|member| member.to_item()).collect();
    assert_eq!(expected.len(), 3);
    assert_eq!(items_of_members(&member_kinds()), expected);
    let item =
        Item::Trait(ItemTrait { id: 1, attrs: vec![], ident: name("T"), items: member_kinds() });
    assert_eq!(contents_of_item(&item), expected);
}

#[test]
fn the_other_kinds_hold_nothing() {
    for (i, item) in one_of_each_kind().iter().enumerate() {
        assert_eq!(contents_of_item(item), vec![], "kind {}", i);
    }
}

#[test]
fn a_copy_is_equal_to_what_it_was_made_of() {
    for item in one_of_each_kind() {
        assert_eq!(item.clone(), item);
    }
    assert_eq!(clone_items(&one_of_each_kind()), one_of_each_kind());
    for member in member_kinds() {
        assert_eq!(member.clone(), member);
    }
    assert_eq!(clone_trait_items(&member_kinds()), member_kinds());
    let stmts = vec![Stmt::Local, Stmt::Item(Item::Use { id: 1 }), Stmt::Expr, Stmt::Semi];
    assert_eq!(clone_stmts(&stmts), stmts);
    assert_eq!(stmts[1].clone(), stmts[1]);
    let attrs = vec![at(1, "a"), at(2, "b")];
    assert_eq!(clone_attrs(&attrs), attrs);
    assert_eq!(attrs[0].clone(), attrs[0]);
}

#[test]
fn a_copy_goes_all_the_way_down() {
    let deep = Item::Mod {
        id: 1,
        attrs: vec![at(2, "cfg")],
        ident: name("a"),
        content: Some(vec![Item::Trait(ItemTrait {
            id: 3,
            attrs: vec![at(4, "doc")],
            ident: name("T"),
            items: member_kinds(),
        })]),
    };
    assert_eq!(deep.clone(), deep);
    let file = File { items: vec![deep] };
    assert_eq!(file.clone(), file);
}
