use status_mirror::protocols::{
    create_facets, facets_from_links, uri_to_post_rkey, uri_to_repost_rkey, Api, LinkSpan, UriError,
};

#[test]
fn post_rkey_from_uri() {
    let uri = "at://did:plc:abc123/app.bsky.feed.post/3kxyz";
    assert_eq!(uri_to_post_rkey(uri), Ok("3kxyz".to_string()));
    assert_eq!(uri_to_post_rkey("at://did:plc:abc123/app.bsky.feed.repost/3k"), Err(UriError::InvalidFormat));
    assert_eq!(uri_to_post_rkey("https://example.com"), Err(UriError::InvalidFormat));
}

#[test]
fn repost_rkey_from_uri() {
    let uri = "at://did:plc:abc123/app.bsky.feed.repost/3krepost";
    assert_eq!(uri_to_repost_rkey(uri), Ok("3krepost".to_string()));
    assert_eq!(uri_to_repost_rkey("at://did:plc:abc123/app.bsky.feed.post/3k"), Err(UriError::InvalidFormat));
}

#[test]
fn facets_of_links_in_content() {
    let facets = create_facets("see https://example.com/a now");
    assert_eq!(facets.len(), 1);
    assert_eq!(facets[0].byte_start, 4);
    assert_eq!(facets[0].byte_end, 25);
    assert_eq!(facets[0].uri, "https://example.com/a");
    assert!(create_facets("").is_empty());
    assert!(create_facets("no links here").is_empty());
}

#[test]
fn facets_from_given_links() {
    let links = vec![
        LinkSpan { start: 0, end: 5, text: "a.com".to_string() },
        LinkSpan { start: 7, end: 19, text: "https://b.jp".to_string() },
    ];
    let facets = facets_from_links(&links);
    assert_eq!(facets.len(), 2);
    assert_eq!((facets[1].byte_start, facets[1].byte_end), (7, 19));
    assert_eq!(facets[1].uri, "https://b.jp");
}

#[test]
fn api_keeps_origin() {
    let api = Api::new("https://bsky.social".to_string());
    assert_eq!(api.repo.origin, "https://bsky.social");
}
