//! Conversions between character vectors and strings, and small helpers on
//! paths held as component vectors.

use vstd::prelude::*;

verus! {

/// Relies on `core::iter::Iterator::collect` for `String`: collecting the
/// characters of a slice yields the string of exactly those characters.
#[verifier::external_body]
pub fn string_from_chars(v: &Vec<char>) -> (r: String)
    ensures
        r@ == v@,
{
    v.iter().collect()
}

/// Relies on `str::chars`: the iterator yields the characters of the string
/// in order, so collecting them gives back exactly the string's characters.
#[verifier::external_body]
pub fn chars_of_str(s: &str) -> (r: Vec<char>)
    ensures
        r@ == s@,
{
    s.chars().collect()
}

/// The text of a path's components, each preceded by a separator.
pub open spec fn joined_path(p: Seq<Seq<char>>) -> Seq<char>
    decreases p.len(),
{
    if p.len() == 0 {
        Seq::empty()
    } else {
        joined_path(p.drop_last()) + "/"@ + p.last()
    }
}

/// How a path held as components reads as text: the root alone is the
/// separator, anything else is the components each preceded by it.
pub open spec fn path_display_spec(p: Seq<Seq<char>>) -> Seq<char> {
    if p.len() == 0 {
        "/"@
    } else {
        joined_path(p)
    }
}

/// Render a path held as components as text.
pub fn path_display(p: &Vec<String>) -> (r: String)
    ensures
        r@ == path_display_spec(p.deep_view()),
{
    if p.len() == 0 {
        return String::from_str("/");
    }
    let mut r = String::new();
    let mut i: usize = 0;
    while i < p.len()
        invariant
            i <= p@.len(),
            r@ == joined_path(p.deep_view().take(i as int)),
        decreases p@.len() - i,
    {
        proof {
            assert(p.deep_view().take(i + 1).drop_last() =~~= p.deep_view().take(i as int));
        }
        r.append("/");
        r.append(p[i].as_str());
        i = i + 1;
    }
    proof {
        assert(p.deep_view().take(p@.len() as int) =~~= p.deep_view());
    }
    r
}

/// A copy of a path held as components.
pub fn clone_path(p: &Vec<String>) -> (r: Vec<String>)
    ensures
        r.deep_view() == p.deep_view(),
{
    let mut r: Vec<String> = Vec::new();
    let mut i: usize = 0;
    while i < p.len()
        invariant
            i <= p@.len(),
            r.deep_view() == p.deep_view().take(i as int),
        decreases p@.len() - i,
    {
        proof {
            assert(p.deep_view().take(i as int).len() == i as int);
        }
        r.push(p[i].clone());
        proof {
            assert(r.deep_view() =~~= p.deep_view().take(i + 1));
        }
        i = i + 1;
    }
    proof {
        assert(r.deep_view() =~~= p.deep_view());
    }
    r
}

} // verus!
