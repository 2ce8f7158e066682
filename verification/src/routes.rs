//! The route table of the application, and the links its pages render.
//!
//! The router shows one leaf page per path: the landing page at `/`, the
//! container's own content at `/container`, and the object view nested inside
//! the container at `/container/object`. Every other path falls through to the
//! router's fallback. A drawer beside the routed content always offers a link
//! to the container, and the container's content offers a link to the object.

use vstd::prelude::*;
use vstd::string::StrSliceExecFns;

verus! {

/// A leaf of the route tree: what the router shows for a given path.
#[derive(Clone, Copy, Debug, PartialEq, Eq, Structural)]
pub enum Page {
    /// The landing page, at `/`.
    Home,
    /// The container's default content, at `/container`.
    ContainerContent,
    /// The object view nested in the container, at `/container/object`.
    Object,
    /// No route matches: the router falls back to an error view.
    NotFound,
}

/// The route table: the page a path leads to.
pub open spec fn spec_resolve(path: Seq<char>) -> Page {
    if path == "/"@ {
        Page::Home
    } else if path == "/container"@ {
        Page::ContainerContent
    } else if path == "/container/object"@ {
        Page::Object
    } else {
        Page::NotFound
    }
}

/// Character-by-character equality of two string slices.
pub fn str_eq(a: &str, b: &str) -> (r: bool)
    ensures
        r == (a@ == b@),
{
    let a_len = a.unicode_len();
    let b_len = b.unicode_len();
    if a_len != b_len {
        return false;
    }
    let mut i: usize = 0;
    while i < a_len
        invariant
            i <= a_len,
            a_len == a@.len(),
            a@.len() == b@.len(),
            forall|j: int| 0 <= j < i ==> a@[j] == b@[j],
        decreases a_len - i,
    {
        if a.get_char(i) != b.get_char(i) {
            return false;
        }
        i += 1;
    }
    proof {
        assert(a@ =~= b@);
    }
    true
}

/// Matches a path against the route table.
pub fn resolve(path: &str) -> (p: Page)
    ensures
        p == spec_resolve(path@),
{
    if str_eq(path, "/") {
        Page::Home
    } else if str_eq(path, "/container") {
        Page::ContainerContent
    } else if str_eq(path, "/container/object") {
        Page::Object
    } else {
        Page::NotFound
    }
}

/// The links rendered while a page is shown: the drawer's link to the
/// container on every page, and, on the container's default content, the
/// further link to the object.
pub open spec fn spec_links(p: Page) -> Seq<Seq<char>> {
    match p {
        Page::ContainerContent => seq!["/container"@, "/container/object"@],
        _ => seq!["/container"@],
    }
}

/// The links rendered while `p` is shown.
pub fn page_links(p: Page) -> (links: Vec<&'static str>)
    ensures
        links@.len() == spec_links(p).len(),
        forall|i: int| 0 <= i < links@.len() ==> (#[trigger] links@[i])@ == spec_links(p)[i],
{
    let mut links: Vec<&'static str> = Vec::new();
    links.push("/container");
    if let Page::ContainerContent = p {
        links.push("/container/object");
    }
    links
}

/// Every link the application renders leads to a page of the route table:
/// none falls through to the router's fallback.
pub proof fn lemma_links_reach_a_page(p: Page)
    ensures
        forall|i: int|
            0 <= i < spec_links(p).len() ==> spec_resolve(
                #[trigger] spec_links(p)[i],
            ) != Page::NotFound,
{
    reveal_strlit("/");
    reveal_strlit("/container");
    reveal_strlit("/container/object");
    assert("/"@.len() == 1);
    assert("/container"@.len() == 10);
    assert("/container/object"@.len() == 17);
    assert(spec_resolve("/container"@) == Page::ContainerContent);
    assert(spec_resolve("/container/object"@) == Page::Object);
}

} // verus!
