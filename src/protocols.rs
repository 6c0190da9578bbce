use crate::operations::Facet;
use vstd::prelude::*;

verus! {

/// The shape of an AT Protocol post URI; its capture group is the post's
/// record key.
pub const POST_URI_PATTERN: &'static str = "at://did:plc:.+?/app.bsky.feed.post/(.+)";

/// The shape of an AT Protocol repost URI; its capture group is the repost's
/// record key.
pub const REPOST_URI_PATTERN: &'static str = "at://did:plc:.+?/app.bsky.feed.repost/(.+)";

/// The repository API of an AT Protocol server at `origin`.
pub struct Repo {
    pub origin: String,
}

impl Repo {
    pub fn new(origin: String) -> (r: Repo)
        ensures
            r.origin == origin,
    {
        Repo { origin }
    }
}

/// The API of an AT Protocol server.
pub struct Api {
    pub repo: Repo,
}

impl Api {
    pub fn new(origin: String) -> (r: Api)
        ensures
            r.repo.origin == origin,
    {
        Api { repo: Repo::new(origin) }
    }
}

/// A URI that does not have the shape of the record it should name.
#[derive(Debug, Clone, Copy, PartialEq, Eq, Structural)]
pub enum UriError {
    InvalidFormat,
}

/// The text of the first capture group of the first match of the regular
/// expression `pattern` in `text`; none where the expression does not compile,
/// does not match, or its first group takes no part in the match.
pub uninterp spec fn first_group_of(pattern: Seq<char>, text: Seq<char>) -> Option<Seq<char>>;

/// Relies on regex::Regex::new, Regex::captures and Captures::get: the text
/// of the first capture group of the first match.
#[verifier::external_body]
fn first_group(pattern: &str, text: &str) -> (r: Option<String>)
    ensures
        match r {
            Some(s) => first_group_of(pattern@, text@) == Some(s@),
            None => first_group_of(pattern@, text@) is None,
        },
{
    match regex::Regex::new(pattern) {
        Ok(re) => re.captures(text).and_then(|c| c.get(1)).map(|m| m.as_str().to_owned()),
        Err(_) => None,
    }
}

/// The record key at the end of a post's URI.
pub fn uri_to_post_rkey(uri: &str) -> (r: Result<String, UriError>)
    ensures
        match first_group_of(POST_URI_PATTERN@, uri@) {
            Some(k) => r is Ok && r->Ok_0@ == k,
            None => r == Err::<String, UriError>(UriError::InvalidFormat),
        },
{
    match first_group(POST_URI_PATTERN, uri) {
        Some(k) => Ok(k),
        None => Err(UriError::InvalidFormat),
    }
}

/// The record key at the end of a repost's URI.
pub fn uri_to_repost_rkey(uri: &str) -> (r: Result<String, UriError>)
    ensures
        match first_group_of(REPOST_URI_PATTERN@, uri@) {
            Some(k) => r is Ok && r->Ok_0@ == k,
            None => r == Err::<String, UriError>(UriError::InvalidFormat),
        },
{
    match first_group(REPOST_URI_PATTERN, uri) {
        Some(k) => Ok(k),
        None => Err(UriError::InvalidFormat),
    }
}

/// A link found in a text: its byte range and its text.
#[derive(Debug)]
pub struct LinkSpan {
    pub start: usize,
    pub end: usize,
    pub text: String,
}

pub open spec fn span_views(v: Seq<LinkSpan>) -> Seq<(usize, usize, Seq<char>)> {
    v.map_values(|l: LinkSpan| l@)
}

impl View for LinkSpan {
    type V = (usize, usize, Seq<char>);

    open spec fn view(&self) -> (usize, usize, Seq<char>) {
        (self.start, self.end, self.text@)
    }
}

/// The links that a default link finder (URLs with a scheme, and e-mail
/// addresses) finds in `text`, in order: byte range and text of each.
pub uninterp spec fn links_in(text: Seq<char>) -> Seq<(usize, usize, Seq<char>)>;

/// Relies on linkify::LinkFinder::new and LinkFinder::links, with Link::start,
/// Link::end and Link::as_str: the links of the text, in order.
#[verifier::external_body]
fn find_links(text: &str) -> (r: Vec<LinkSpan>)
    ensures
        span_views(r@) == links_in(text@),
{
    linkify::LinkFinder::new().links(text).map(
        |l| LinkSpan { start: l.start(), end: l.end(), text: l.as_str().to_owned() },
    ).collect()
}

/// The link annotations for found links: each link's byte range, as `u32`
/// offsets, and its text as the target.
pub fn facets_from_links(links: &Vec<LinkSpan>) -> (r: Vec<Facet>)
    ensures
        r@.len() == links@.len(),
        forall|i: int|
            0 <= i < r@.len() ==> (#[trigger] r@[i]).byte_start == #[verifier::truncate] (links@[i].start as u32)
                && r@[i].byte_end == #[verifier::truncate] (links@[i].end as u32) && r@[i].uri == links@[i].text,
{
    let mut facets: Vec<Facet> = Vec::new();
    let mut i: usize = 0;
    while i < links.len()
        invariant
            i <= links@.len(),
            facets@.len() == i,
            forall|j: int|
                0 <= j < i ==> (#[trigger] facets@[j]).byte_start == #[verifier::truncate] (links@[j].start as u32)
                    && facets@[j].byte_end == #[verifier::truncate] (links@[j].end as u32) && facets@[j].uri == links@[j].text,
        decreases links@.len() - i,
    {
        let link = &links[i];
        facets.push(
            Facet { byte_start: link.start as u32, byte_end: link.end as u32, uri: link.text.clone() },
        );
        i = i + 1;
    }
    facets
}

/// The link annotations of a post's content: one per link found in it.
pub fn create_facets(content: &str) -> (r: Vec<Facet>)
    ensures
        r@.len() == links_in(content@).len(),
        forall|i: int|
            0 <= i < r@.len() ==> (#[trigger] r@[i]).byte_start == #[verifier::truncate] (links_in(content@)[i].0 as u32)
                && r@[i].byte_end == #[verifier::truncate] (links_in(content@)[i].1 as u32) && r@[i].uri@ == links_in(
                content@,
            )[i].2,
{
    let links = find_links(content);
    let r = facets_from_links(&links);
    assert forall|i: int| 0 <= i < r@.len() implies #[trigger] r@[i].uri@ == links_in(content@)[i].2 by {
        assert(links_in(content@)[i] == links@[i]@);
    }
    assert forall|i: int| 0 <= i < r@.len() implies (#[trigger] r@[i]).byte_start == #[verifier::truncate] (links_in(content@)[i].0 as u32) by {
        assert(links_in(content@)[i] == links@[i]@);
    }
    assert forall|i: int| 0 <= i < r@.len() implies #[trigger] r@[i].byte_end == #[verifier::truncate] (links_in(content@)[i].1 as u32) by {
        assert(links_in(content@)[i] == links@[i]@);
    }
    r
}

} // verus!
