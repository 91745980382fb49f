use vstd::prelude::*;
use crate::errors::FetchError;
use crate::transfer::FetchedContent;

verus! {

/// Whether `scraper::Selector::parse` accepts `s` as a selector.
pub uninterp spec fn sel_valid(s: Seq<char>) -> bool;

/// The inner content of each node the selector matches in the document, in
/// the order the query engine produces them.
pub uninterp spec fn html_matches(body: Seq<char>, selector: Seq<char>) -> Seq<Seq<char>>;

/// The value of attribute `attribute` on match `i`, when that node carries it.
pub uninterp spec fn html_match_attr(
    body: Seq<char>,
    selector: Seq<char>,
    attribute: Seq<char>,
    i: int,
) -> Option<Seq<char>>;

/// Whether `regex::Regex::new` accepts `p` as a pattern.
pub uninterp spec fn regex_valid(p: Seq<char>) -> bool;

/// The leftmost match of pattern `p` in `text`, if any.
pub uninterp spec fn regex_first(p: Seq<char>, text: Seq<char>) -> Option<Seq<char>>;

/// The view of an optional owned string.
pub open spec fn opt_str_view(o: Option<String>) -> Option<Seq<char>> {
    match o {
        Some(s) => Some(s@),
        None => None,
    }
}

/// Relies on `scraper::Selector::parse`: whether a selector string compiles
/// is a function of the string alone.
#[verifier::external_body]
fn selector_compiles(s: &str) -> (r: bool)
    ensures
        r == sel_valid(s@),
{
    scraper::Selector::parse(s).is_ok()
}

/// Relies on `regex::Regex::new`: whether a pattern compiles is a function
/// of the pattern alone.
#[verifier::external_body]
fn regex_compiles(p: &str) -> (r: bool)
    ensures
        r == regex_valid(p@),
{
    regex::Regex::new(p).is_ok()
}

/// Relies on `regex::Regex::new` and `regex::Regex::find`: the leftmost
/// match of a compiled pattern in a haystack is a function of the pattern
/// and haystack strings alone.
#[verifier::external_body]
fn regex_find_first(p: &str, text: &str) -> (r: Option<String>)
    requires
        regex_valid(p@),
    ensures
        opt_str_view(r) == regex_first(p@, text@),
{
    regex::Regex::new(p).unwrap().find(text).map(|m| String::from(m.as_str()))
}

/// One matched node, reduced to the two values extraction reads: the
/// requested attribute's value when the node carries it, and the node's
/// inner serialized content.
pub struct NodeData {
    pub attr_value: Option<String>,
    pub inner: String,
}

/// Relies on `scraper::Selector::parse`, `scraper::Html::parse_document`,
/// `scraper::Html::select`, `scraper::ElementRef::attr` and
/// `scraper::ElementRef::inner_html`: the matched nodes, in the order the
/// engine yields them, and the two values each carries are a function of
/// the document text, the selector text and the attribute name alone.
#[verifier::external_body]
fn select_nodes(body: &str, selector: &str, attribute: Option<&String>) -> (r: Vec<NodeData>)
    requires
        sel_valid(selector@),
    ensures
        r@.len() == html_matches(body@, selector@).len(),
        forall|i: int|
            0 <= i < r@.len() ==> (#[trigger] r@[i]).inner@ == html_matches(body@, selector@)[i],
        forall|i: int|
            0 <= i < r@.len() ==> opt_str_view((#[trigger] r@[i]).attr_value) == (match attribute {
                Some(a) => html_match_attr(body@, selector@, a@, i),
                None => None::<Seq<char>>,
            }),
{
    let sel = scraper::Selector::parse(selector).unwrap();
    let doc = scraper::Html::parse_document(body);
    let mut out = Vec::new();
    for node in doc.select(&sel) {
        let attr_value = match attribute {
            Some(a) => node.attr(a.as_str()).map(|v| String::from(v)),
            None => None,
        };
        out.push(NodeData { attr_value, inner: node.inner_html() });
    }
    out
}

/// The structural query: a selector, an optional attribute to read per
/// node, an optional cap on the number of nodes, and an optional narrowing
/// pattern. Built once, before fetching; immutable.
pub struct Query {
    selector: String,
    attribute: Option<String>,
    cap: Option<usize>,
    filter: Option<String>,
}

/// The mathematical content of a `Query`.
pub struct QueryView {
    pub selector: Seq<char>,
    pub attribute: Option<Seq<char>>,
    pub cap: Option<usize>,
    pub filter: Option<Seq<char>>,
}

impl View for Query {
    type V = QueryView;

    closed spec fn view(&self) -> QueryView {
        QueryView {
            selector: self.selector@,
            attribute: opt_str_view(self.attribute),
            cap: self.cap,
            filter: opt_str_view(self.filter),
        }
    }
}

impl Query {
    /// Both compiled patterns of the query are valid.
    #[verifier::type_invariant]
    spec fn wf(self) -> bool {
        &&& sel_valid(self.selector@)
        &&& (self.filter matches Some(f) ==> regex_valid(f@))
    }

    /// Builds a query from user input. A selector that does not compile, or
    /// a filter pattern that does not compile, is rejected here, before any
    /// fetching; no matching is ever attempted with an invalid selector.
    pub fn new(
        selector: String,
        attribute: Option<String>,
        cap: Option<usize>,
        filter: Option<String>,
    ) -> (r: Result<Query, FetchError>)
        ensures
            r is Ok <==> (sel_valid(selector@) && (filter matches Some(f) ==> regex_valid(f@))),
            r matches Ok(q) ==> q@ == (QueryView {
                selector: selector@,
                attribute: opt_str_view(attribute),
                cap,
                filter: opt_str_view(filter),
            }),
            r matches Err(e) ==> e is InvalidQuery,
    {
        if !selector_compiles(selector.as_str()) {
            return Err(FetchError::InvalidQuery);
        }
        if let Some(f) = &filter {
            if !regex_compiles(f.as_str()) {
                return Err(FetchError::InvalidQuery);
            }
        }
        Ok(Query { selector, attribute, cap, filter })
    }
}

/// How many nodes the selector matches in `body`.
pub open spec fn match_count(body: Seq<char>, q: QueryView) -> nat {
    html_matches(body, q.selector).len()
}

/// How many matches extraction keeps: all of them, or the first `cap`.
pub open spec fn taken_count(body: Seq<char>, q: QueryView) -> nat {
    match q.cap {
        Some(c) => if c < match_count(body, q) {
            c as nat
        } else {
            match_count(body, q)
        },
        None => match_count(body, q),
    }
}

/// The value chosen for match `i`: the requested attribute when the node
/// carries it, else that node's inner content.
pub open spec fn node_value(body: Seq<char>, q: QueryView, i: int) -> Seq<char> {
    match q.attribute {
        Some(a) => match html_match_attr(body, q.selector, a, i) {
            Some(v) => v,
            None => html_matches(body, q.selector)[i],
        },
        None => html_matches(body, q.selector)[i],
    }
}

/// Best-effort narrowing: the first match of the pattern, or the value
/// unchanged when the pattern finds nothing.
pub open spec fn regex_refine(p: Seq<char>, v: Seq<char>) -> Seq<char> {
    match regex_first(p, v) {
        Some(m) => m,
        None => v,
    }
}

/// The line emitted for match `i`, after attribute choice and narrowing.
pub open spec fn emitted_value(body: Seq<char>, q: QueryView, i: int) -> Seq<char> {
    match q.filter {
        Some(p) => regex_refine(p, node_value(body, q, i)),
        None => node_value(body, q, i),
    }
}

/// The retained values, one per kept match, in document order.
pub open spec fn extracted_values(body: Seq<char>, q: QueryView) -> Seq<Seq<char>> {
    Seq::new(taken_count(body, q), |i: int| emitted_value(body, q, i))
}

/// The values joined into output text, one line per value.
pub open spec fn lines_of(vals: Seq<Seq<char>>) -> Seq<char>
    decreases vals.len(),
{
    if vals.len() == 0 {
        Seq::empty()
    } else {
        lines_of(vals.drop_last()) + vals.last() + seq!['\n']
    }
}

/// The full result of extraction on `body` under query `q`.
pub open spec fn extraction(body: Seq<char>, q: QueryView) -> Seq<char> {
    lines_of(extracted_values(body, q))
}

proof fn lemma_lines_of_take(vals: Seq<Seq<char>>, i: int)
    requires
        0 <= i < vals.len(),
    ensures
        lines_of(vals.take(i + 1)) == lines_of(vals.take(i)) + vals[i] + seq!['\n'],
{
    assert(vals.take(i + 1).drop_last() =~= vals.take(i));
    assert(vals.take(i + 1).last() == vals[i]);
}

/// Applies the filter to one chosen value.
fn regex_refine_exec(pattern: &String, value: &String) -> (r: String)
    requires
        regex_valid(pattern@),
    ensures
        r@ == regex_refine(pattern@, value@),
{
    match regex_find_first(pattern.as_str(), value.as_str()) {
        Some(m) => m,
        None => value.clone(),
    }
}

impl Query {
    /// Runs the query over a document body: matches nodes in document
    /// order, keeps at most `cap` of them, chooses the attribute value or
    /// the inner content per node, narrows it with the filter, and joins
    /// the results one per line.
    #[verifier::loop_isolation(false)]
    pub fn extract(&self, body: &str) -> (r: String)
        ensures
            r@ == extraction(body@, self@),
    {
        proof {
            use_type_invariant(&*self);
        }
        let nodes = select_nodes(body, self.selector.as_str(), self.attribute.as_ref());
        let n: usize = nodes.len();
        let limit: usize = match self.cap {
            Some(c) => if c < n {
                c
            } else {
                n
            },
            None => n,
        };
        assert(limit as nat == taken_count(body@, self@));
        let mut out = String::new();
        let mut i: usize = 0;
        while i < limit
            invariant
                i <= limit,
                out@ == lines_of(extracted_values(body@, self@).take(i as int)),
            decreases limit - i,
        {
            let node = &nodes[i];
            let chosen: &String = match &node.attr_value {
                Some(v) => v,
                None => &node.inner,
            };
            assert(chosen@ == node_value(body@, self@, i as int));
            let line: String = match &self.filter {
                Some(p) => regex_refine_exec(p, chosen),
                None => chosen.clone(),
            };
            assert(line@ == emitted_value(body@, self@, i as int));
            out.append(line.as_str());
            out.append("\n");
            proof {
                reveal_strlit("\n");
                assert("\n"@ =~= seq!['\n']);
                lemma_lines_of_take(extracted_values(body@, self@), i as int);
                assert(out@ =~= lines_of(extracted_values(body@, self@).take(i as int + 1)));
            }
            i += 1;
        }
        proof {
            assert(extracted_values(body@, self@).take(limit as int) =~= extracted_values(
                body@,
                self@,
            ));
        }
        out
    }

    /// Runs the extraction engine over fetched content: the body is
    /// replaced by the extracted lines; the declared language passes
    /// through unchanged.
    pub fn apply(&self, content: FetchedContent) -> (r: FetchedContent)
        ensures
            r.body@ == extraction(content.body@, self@),
            r.language == content.language,
    {
        let body = self.extract(content.body.as_str());
        FetchedContent { body, language: content.language }
    }
}

/// With a cap of `n`: a document with at least `n` matches yields exactly
/// `n` results; one with fewer yields exactly as many as it has. Each kept
/// result is the one emitted for the match of the same rank, so document
/// order is preserved.
pub proof fn lemma_cap_exact(body: Seq<char>, q: QueryView, n: usize)
    requires
        q.cap == Some(n),
    ensures
        match_count(body, q) >= n ==> extracted_values(body, q).len() == n,
        match_count(body, q) < n ==> extracted_values(body, q).len() == match_count(body, q),
        forall|i: int|
            0 <= i < extracted_values(body, q).len() ==> extracted_values(body, q)[i]
                == emitted_value(body, q, i),
{
}

/// When an attribute is requested but match `i` does not carry it, the
/// value chosen for that node alone falls back to its inner content.
pub proof fn lemma_attribute_fallback(body: Seq<char>, q: QueryView, a: Seq<char>, i: int)
    requires
        q.attribute == Some(a),
        html_match_attr(body, q.selector, a, i) is None,
    ensures
        node_value(body, q, i) == html_matches(body, q.selector)[i],
{
}

/// When the filter finds no match in a value, the value passes through
/// unchanged; the filter never empties a line.
pub proof fn lemma_filter_no_match(p: Seq<char>, v: Seq<char>)
    requires
        regex_first(p, v) is None,
    ensures
        regex_refine(p, v) == v,
{
}

} // verus!
