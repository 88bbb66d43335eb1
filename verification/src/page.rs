//! Building the response bodies: the wrapped document page, the listing page,
//! and the not-found placeholder.

use vstd::prelude::*;
use vstd::string::StringExecFns;
use crate::render::render_of;

verus! {

/// One listing entry for a published name.
pub open spec fn li_of(name: Seq<char>) -> Seq<char> {
    "<li>"@ + name + "</li>"@
}

/// The listing entries, one per name in order, separated by newlines.
pub open spec fn list_items_of(names: Seq<Seq<char>>) -> Seq<char>
    decreases names.len(),
{
    if names.len() == 0 {
        Seq::empty()
    } else if names.len() == 1 {
        li_of(names[0])
    } else {
        list_items_of(names.drop_last()) + "\n"@ + li_of(names.last())
    }
}

/// The full listing page: a minimal HTML document holding one entry per
/// published name.
pub open spec fn list_page_of(names: Seq<Seq<char>>) -> Seq<char> {
    "<!DOCTYPE html><html><body><ul>"@ + list_items_of(names) + "</ul></body></html>"@
}

/// A rendered artifact wrapped in a minimal HTML document.
pub open spec fn doc_page_of(inner: Seq<char>) -> Seq<char> {
    "<!DOCTYPE html><html><body>"@ + inner + "</body></html>"@
}

/// What fetching a name from a store with the given contents returns: the
/// wrapped rendered form when the name is published, the error placeholder
/// when it is not.
pub open spec fn publish_page_of(contents: Map<Seq<char>, Seq<char>>, name: Seq<char>) -> Seq<
    char,
> {
    if contents.dom().contains(name) {
        doc_page_of(render_of(contents[name]))
    } else {
        "error"@
    }
}

/// Builds the listing entries for the given names, in order.
pub fn render_list_items(names: &Vec<String>) -> (r: String)
    ensures
        r@ == list_items_of(names@.map_values(|s: String| s@)),
{
    let ghost vnames = names@.map_values(|s: String| s@);
    let n = names.len();
    let mut out = String::new();
    let mut i: usize = 0;
    while i < n
        invariant
            0 <= i <= n,
            n == names@.len(),
            vnames == names@.map_values(|s: String| s@),
            vnames.len() == n,
            out@ == list_items_of(vnames.take(i as int)),
        decreases n - i,
    {
        if i > 0 {
            out.append("\n");
        }
        out.append("<li>");
        out.append(names[i].as_str());
        out.append("</li>");
        proof {
            let t = vnames.take(i as int + 1);
            assert(t.drop_last() =~= vnames.take(i as int));
            assert(t.last() == vnames[i as int]);
            if i == 0 {
                assert(out@ =~= li_of(vnames[0]));
            } else {
                assert(out@ =~= list_items_of(vnames.take(i as int)) + "\n"@ + li_of(
                    vnames[i as int],
                ));
            }
        }
        i = i + 1;
    }
    proof {
        assert(vnames.take(n as int) =~= vnames);
    }
    out
}

/// Builds the full listing page for the given names.
pub fn render_list_page(names: &Vec<String>) -> (r: String)
    ensures
        r@ == list_page_of(names@.map_values(|s: String| s@)),
{
    let mut out = String::from_str("<!DOCTYPE html><html><body><ul>");
    let items = render_list_items(names);
    out.append(items.as_str());
    out.append("</ul></body></html>");
    proof {
        assert(out@ =~= list_page_of(names@.map_values(|s: String| s@)));
    }
    out
}

/// Wraps a rendered artifact in a minimal HTML document.
pub fn render_doc_page(inner: &String) -> (r: String)
    ensures
        r@ == doc_page_of(inner@),
{
    let mut out = String::from_str("<!DOCTYPE html><html><body>");
    out.append(inner.as_str());
    out.append("</body></html>");
    proof {
        assert(out@ =~= doc_page_of(inner@));
    }
    out
}

} // verus!
