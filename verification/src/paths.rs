//! Endpoint paths, relative to the base URL.
//!
//! Collections and their items end in a slash. List endpoints take their
//! page, and any filter, as query parameters. Identifiers and filter values
//! are placed in the path as they are given.

use crate::text::{decimal, push_i32};
use vstd::prelude::*;

verus! {

/// Path of a collection: `name/`.
pub open spec fn collection(name: Seq<char>) -> Seq<char> {
    name + "/"@
}

/// Path of one item of a collection: `name/id/`.
pub open spec fn item(name: Seq<char>, id: Seq<char>) -> Seq<char> {
    name + "/"@ + id + "/"@
}

/// Path of an operation on one item: `name/id/verb/`.
pub open spec fn operation(name: Seq<char>, id: Seq<char>, verb: Seq<char>) -> Seq<char> {
    name + "/"@ + id + "/"@ + verb + "/"@
}

/// Path of a collection with a first query parameter: `name/?key=value`.
pub open spec fn query(name: Seq<char>, key: Seq<char>, value: Seq<char>) -> Seq<char> {
    name + "/?"@ + key + "="@ + value
}

/// A path with one more query parameter: `path&key=value`.
pub open spec fn and_param(path: Seq<char>, key: Seq<char>, value: Seq<char>) -> Seq<char> {
    path + "&"@ + key + "="@ + value
}

/// A path with one more query parameter, if a value is given.
pub open spec fn and_filter(path: Seq<char>, key: Seq<char>, value: Option<Seq<char>>) -> Seq<
    char,
> {
    match value {
        Some(v) => and_param(path, key, v),
        None => path,
    }
}

/// Path of one page of a collection: `name/?page=N`.
pub open spec fn page_of(name: Seq<char>, page: int) -> Seq<char> {
    query(name, "page"@, decimal(page))
}

/// Path of one page of a given size: `name/?page=N&page_size=M`.
pub open spec fn sized_page_of(name: Seq<char>, page: int, page_size: int) -> Seq<char> {
    and_param(page_of(name, page), "page_size"@, decimal(page_size))
}

/// View of an optional borrowed string.
pub open spec fn filter_view(value: Option<&str>) -> Option<Seq<char>> {
    match value {
        Some(v) => Some(v@),
        None => None,
    }
}

/// Builds the path of a collection.
pub fn collection_path(name: &str) -> (path: String)
    ensures
        path@ == collection(name@),
{
    let mut path: String = String::from_str(name);
    path.append("/");
    path
}

/// Builds the path of one item of a collection.
pub fn item_path(name: &str, id: &str) -> (path: String)
    ensures
        path@ == item(name@, id@),
{
    let mut path: String = String::from_str(name);
    path.append("/");
    path.append(id);
    path.append("/");
    path
}

/// Builds the path of an operation on one item.
pub fn operation_path(name: &str, id: &str, verb: &str) -> (path: String)
    ensures
        path@ == operation(name@, id@, verb@),
{
    let mut path: String = item_path(name, id);
    path.append(verb);
    path.append("/");
    path
}

/// Builds the path of a collection with a first query parameter.
pub fn query_path(name: &str, key: &str, value: &str) -> (path: String)
    ensures
        path@ == query(name@, key@, value@),
{
    let mut path: String = String::from_str(name);
    path.append("/?");
    path.append(key);
    path.append("=");
    path.append(value);
    path
}

/// Appends one more query parameter to a path.
pub fn push_param(path: &mut String, key: &str, value: &str)
    ensures
        final(path)@ == and_param(old(path)@, key@, value@),
{
    path.append("&");
    path.append(key);
    path.append("=");
    path.append(value);
}

/// Appends one more query parameter to a path, if a value is given.
pub fn push_filter(path: &mut String, key: &str, value: Option<&str>)
    ensures
        final(path)@ == and_filter(old(path)@, key@, filter_view(value)),
{
    if let Some(v) = value {
        push_param(path, key, v);
    }
}

/// Builds the path of a collection with a first query parameter that is a number.
pub fn number_query_path(name: &str, key: &str, value: i32) -> (path: String)
    ensures
        path@ == query(name@, key@, decimal(value as int)),
{
    let mut path: String = String::from_str(name);
    path.append("/?");
    path.append(key);
    path.append("=");
    push_i32(&mut path, value);
    path
}

/// Appends one more query parameter that is a number.
pub fn push_number_param(path: &mut String, key: &str, value: i32)
    ensures
        final(path)@ == and_param(old(path)@, key@, decimal(value as int)),
{
    path.append("&");
    path.append(key);
    path.append("=");
    push_i32(path, value);
}

/// Builds the path of one page of a collection.
pub fn page_path(name: &str, page: i32) -> (path: String)
    ensures
        path@ == page_of(name@, page as int),
{
    number_query_path(name, "page", page)
}

/// Builds the path of one page of a given size.
pub fn sized_page_path(name: &str, page: i32, page_size: i32) -> (path: String)
    ensures
        path@ == sized_page_of(name@, page as int, page_size as int),
{
    let mut path: String = page_path(name, page);
    push_number_param(&mut path, "page_size", page_size);
    path
}

/// Builds the path of one page, filtered if a value is given.
pub fn filtered_page_path(name: &str, page: i32, key: &str, value: Option<&str>) -> (path: String)
    ensures
        path@ == and_filter(page_of(name@, page as int), key@, filter_view(value)),
{
    let mut path: String = page_path(name, page);
    push_filter(&mut path, key, value);
    path
}

/// Collection, item and operation paths end in a slash.
pub proof fn lemma_trailing_slash(name: Seq<char>, id: Seq<char>, verb: Seq<char>)
    ensures
        collection(name).last() == '/',
        item(name, id).last() == '/',
        operation(name, id, verb).last() == '/',
{
    reveal_strlit("/");
}

} // verus!
