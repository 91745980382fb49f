use vstd::prelude::*;
use vstd::string::StrSliceExecFns;
use vstd::string::StringExecFns;
use crate::strutil::str_eq;

verus! {

/// A rendering language that a response's declared content type can map to.
#[derive(Clone, Copy, Debug, PartialEq, Eq, Structural)]
pub enum Language {
    Html,
    Json,
}

/// Index of the first `;` in `s`, or `s.len()` if there is none.
pub open spec fn semi_index(s: Seq<char>) -> int
    decreases s.len(),
{
    if s.len() == 0 {
        0
    } else if s[0] == ';' {
        0
    } else {
        1 + semi_index(s.drop_first())
    }
}

/// The bare media type: everything before the first `;` parameter separator.
pub open spec fn media_type(s: Seq<char>) -> Seq<char> {
    s.take(semi_index(s))
}

/// What the classifier returns for a content-type header value, if one was present.
pub open spec fn classify_spec(ct: Option<Seq<char>>) -> Option<Language> {
    match ct {
        Some(s) => if media_type(s) == "text/html"@ {
            Some(Language::Html)
        } else if media_type(s) == "application/json"@ {
            Some(Language::Json)
        } else {
            None
        },
        None => None,
    }
}

proof fn lemma_semi_index_at(s: Seq<char>, i: int)
    requires
        0 <= i <= s.len(),
        forall|j: int| 0 <= j < i ==> s[j] != ';',
        i < s.len() ==> s[i] == ';',
    ensures
        semi_index(s) == i,
    decreases s.len(),
{
    if s.len() == 0 {
    } else if s[0] == ';' {
        assert(i == 0);
    } else {
        assert(i >= 1);
        assert(forall|j: int| 0 <= j < i - 1 ==> s.drop_first()[j] == s[j + 1]);
        lemma_semi_index_at(s.drop_first(), i - 1);
    }
}

/// Everything in `s` before its first `;`, or `s` whole if it has none.
pub fn media_type_exec(s: &str) -> (r: &str)
    ensures
        r@ == media_type(s@),
{
    let len: usize = s.unicode_len();
    let mut i: usize = 0;
    while i < len
        invariant
            i <= len,
            len as nat == s@.len(),
            forall|j: int| 0 <= j < i ==> s@[j] != ';',
        decreases len - i,
    {
        if s.get_char(i) == ';' {
            proof {
                lemma_semi_index_at(s@, i as int);
            }
            return s.substring_char(0, i);
        }
        i += 1;
    }
    proof {
        lemma_semi_index_at(s@, len as int);
        assert(media_type(s@) =~= s@);
    }
    s
}

/// Maps a response's declared content type to a rendering language.
/// Parameters after the first `;` are ignored; an absent or unrecognized
/// media type yields `None`.
pub fn classify_content_type(content_type: Option<&str>) -> (r: Option<Language>)
    ensures
        r == classify_spec(
            match content_type {
                Some(s) => Some(s@),
                None => None,
            },
        ),
{
    match content_type {
        Some(s) => {
            let mt = media_type_exec(s);
            if str_eq(mt, "text/html") {
                Some(Language::Html)
            } else if str_eq(mt, "application/json") {
                Some(Language::Json)
            } else {
                None
            }
        },
        None => None,
    }
}

/// The tag that the highlighting backend understands for `l`.
pub fn language_tag(l: Language) -> (r: &'static str)
    ensures
        l is Html ==> r@ == "html"@,
        l is Json ==> r@ == "json"@,
{
    match l {
        Language::Html => "html",
        Language::Json => "json",
    }
}

/// The language hint handed to the renderer: the declared language wins;
/// an explicit override is used only when nothing was declared.
pub fn render_language(declared: Option<Language>, fallback: Option<String>) -> (r: Option<
    String,
>)
    ensures
        declared matches Some(l) ==> r matches Some(s) && (l is Html ==> s@ == "html"@) && (
        l is Json ==> s@ == "json"@),
        declared is None ==> r == fallback,
{
    match declared {
        Some(l) => Some(String::from_str(language_tag(l))),
        None => fallback,
    }
}

} // verus!
