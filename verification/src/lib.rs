//! Select declarations of a parsed source tree by path.
//!
//! A selector such as `a::b::C` names every declaration that is reached by
//! walking down the tree one name per level. [`Selector`] parses the path,
//! [`Search`] walks a [`File`], and [`select`] does both.

use vstd::prelude::*;

pub mod error;
pub mod ident;
pub mod item;
pub mod search;
pub mod selector;
pub mod text;
pub mod tree;

pub use error::{Error, ErrorKind};
pub use search::Search;
pub use selector::{Selector, SelectorSegment};
pub use tree::{Attribute, File, Item, ItemTrait, Stmt, TraitItem};

verus! {

/// Parses `path`, then searches `file` for every declaration that the path
/// names.
///
/// More than one declaration is found where a module and a function share a
/// name, where one path is declared more than once under different
/// conditions, and where a wildcard stands for several names. That nothing
/// is found is no error.
pub fn select(path: &str, file: &File) -> (found: Result<Vec<Item>, Error>)
    ensures
        match (selector::parse_selector(path@), found) {
            (Ok(query), Ok(items)) => tree::items_view(items@) == search::select_in(
                query,
                file@,
            ),
            (Err(kind), Err(error)) => error@ == kind,
            _ => false,
        },
{
    match Selector::try_from(path) {
        Ok(selector) => Ok(selector.apply_to(file)),
        Err(error) => Err(error),
    }
}

} // verus!
