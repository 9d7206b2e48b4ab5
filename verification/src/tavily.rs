//! The search tool's fixed declaration and the exact text it hands back
//! to the model: records separated by `---`, each with `Title:`, `URL:`
//! and `Content:` lines — the very shape the result parser recovers.

use vstd::prelude::*;

use crate::models::{Finding, FindingView};
use crate::text::{join_spec, lemma_join_snoc};

verus! {

/// A failure of the search tool, carrying its message.
pub struct TavilyError {
    pub message: String,
}

impl TavilyError {
    /// The error rendered for display.
    pub fn describe(&self) -> (r: String)
        ensures
            r@ == "Tavily error: "@ + self.message@,
    {
        let mut s = String::new();
        s.append("Tavily error: ");
        s.append(self.message.as_str());
        s
    }
}

/// The arguments the model supplies when invoking the search tool.
pub struct TavilySearchArgs {
    pub query: String,
}

/// The web-search tool offered to the completion provider.
pub struct TavilySearch;

/// One record of the tool's output text.
pub open spec fn search_item_spec(f: FindingView) -> Seq<char> {
    "Title: "@ + f.title + "\nURL: "@ + f.url + "\nContent: "@ + f.content + "\n"@
}

/// The tool's whole output text: one record per search result, in order,
/// separated by the record delimiter on its own line.
pub open spec fn search_output_spec(rs: Seq<FindingView>) -> Seq<char> {
    join_spec(rs.map_values(|f: FindingView| search_item_spec(f)), "\n---\n"@)
}

impl TavilySearch {
    /// The tool's declared name.
    pub fn name(&self) -> (r: &str)
        ensures
            r@ == "tavily_search"@,
    {
        "tavily_search"
    }

    /// The tool's declared description.
    pub fn description(&self) -> (r: &str)
        ensures
            r@ == "Search the web for information using Tavily search engine"@,
    {
        "Search the web for information using Tavily search engine"
    }

    /// The name of the single required string argument of the tool's
    /// declared schema.
    pub fn query_parameter(&self) -> (r: &str)
        ensures
            r@ == "query"@,
    {
        "query"
    }

    /// Renders search results as the tool's output text.
    pub fn format_results(&self, results: &Vec<Finding>) -> (r: String)
        ensures
            r@ =~= search_output_spec(results.deep_view()),
    {
        let ghost items = results.deep_view().map_values(|f: FindingView| search_item_spec(f));
        let mut out = String::new();
        let mut i: usize = 0;
        proof {
            assert(items.take(0) =~= Seq::empty());
        }
        while i < results.len()
            invariant
                0 <= i <= results@.len(),
                items == results.deep_view().map_values(|f: FindingView| search_item_spec(f)),
                items.len() == results@.len(),
                out@ =~= join_spec(items.take(i as int), "\n---\n"@),
            decreases results@.len() - i,
        {
            if i > 0 {
                out.append("\n---\n");
            }
            let f = &results[i];
            out.append("Title: ");
            out.append(f.title.as_str());
            out.append("\nURL: ");
            out.append(f.url.as_str());
            out.append("\nContent: ");
            out.append(f.content.as_str());
            out.append("\n");
            proof {
                assert(items[i as int] == search_item_spec(results@[i as int]@));
                if i == 0 {
                    assert(items.take(1) =~= seq![items[0]]);
                    assert(out@ =~= items[0]);
                } else {
                    lemma_join_snoc(items, "\n---\n"@, i as int);
                    assert(out@ =~= join_spec(items.take(i as int), "\n---\n"@) + "\n---\n"@
                        + items[i as int]);
                }
            }
            i = i + 1;
        }
        proof {
            assert(items.take(items.len() as int) =~= items);
        }
        out
    }
}

} // verus!
