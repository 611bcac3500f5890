//! The rules of the video service: which links are Instagram links, the
//! post or reel a link names, and which downloader failures mean that the
//! link is not supported.
use crate::text::{contains_text, has_prefix, occurs_in, strip_prefix};
use vstd::prelude::*;

verus! {

/// The video download and transcription service.
#[derive(Debug, Default)]
pub struct YoutubeDL;

impl YoutubeDL {
    pub fn new() -> YoutubeDL {
        YoutubeDL
    }
}

/// Why a link could not be used.
#[derive(Clone, Copy, Debug, PartialEq, Eq, Structural)]
pub enum LinkError {
    /// The text is not an absolute URL.
    Unparsable,
    /// The URL's host is not a domain name.
    NoDomain,
    /// The link names no Instagram post or reel.
    NoPostId,
}

impl LinkError {
    pub fn message(&self) -> (r: String)
        ensures
            *self == LinkError::Unparsable ==> r@ == "Failed to parse URL"@,
            *self == LinkError::NoDomain ==> r@ == "Failed to get domain"@,
            *self == LinkError::NoPostId ==> r@ == "Instagram post/reel ID was not found"@,
    {
        match self {
            LinkError::Unparsable => String::from_str("Failed to parse URL"),
            LinkError::NoDomain => String::from_str("Failed to get domain"),
            LinkError::NoPostId => String::from_str("Instagram post/reel ID was not found"),
        }
    }
}

/// What URL parsing makes of `text`: `None` when it is not an absolute URL,
/// else the URL's host when that host is a domain name.
pub uninterp spec fn parsed_domain_of(text: Seq<char>) -> Option<Option<Seq<char>>>;

/// Relies on url's `Url::parse` and `Url::domain`: whether `text` parses as
/// an absolute URL, and then its host if that is a domain name.
#[verifier::external_body]
fn parsed_domain(text: &str) -> (r: Option<Option<String>>)
    ensures
        r is None <==> parsed_domain_of(text@) is None,
        r matches Some(d) ==> (d is None <==> parsed_domain_of(text@)->0 is None),
        r matches Some(Some(d)) ==> parsed_domain_of(text@)->0->0 == d@,
{
    match url::Url::parse(text) {
        Ok(u) => Some(u.domain().map(|d| d.to_string())),
        Err(_) => None,
    }
}

pub open spec fn instagram_domain() -> Seq<char> {
    "instagram.com"@
}

/// Whether a domain belongs to Instagram.
pub fn domain_is_instagram(domain: &str) -> (r: bool)
    ensures
        r == occurs_in(domain@, instagram_domain()),
{
    contains_text(domain, "instagram.com")
}

/// Whether `url` is an Instagram link; an error when it is no URL or its
/// host is no domain name.
pub fn is_instagram_url(url: &str) -> (r: Result<bool, LinkError>)
    ensures
        parsed_domain_of(url@) is None ==> r == Err::<bool, LinkError>(LinkError::Unparsable),
        parsed_domain_of(url@) == Some(None::<Seq<char>>) ==> r == Err::<bool, LinkError>(
            LinkError::NoDomain,
        ),
        parsed_domain_of(url@) matches Some(Some(d)) ==> r == Ok::<bool, LinkError>(
            occurs_in(d, instagram_domain()),
        ),
{
    match parsed_domain(url) {
        None => Err(LinkError::Unparsable),
        Some(None) => Err(LinkError::NoDomain),
        Some(Some(d)) => Ok(domain_is_instagram(d.as_str())),
    }
}

/// The characters an Instagram post or reel id is made of.
pub open spec fn is_id_char(c: char) -> bool {
    ('a' <= c && c <= 'z') || ('A' <= c && c <= 'Z') || ('0' <= c && c <= '9') || c == '_' || c
        == '-'
}

/// The longest run of id characters at the start of `s`.
pub open spec fn id_run(s: Seq<char>) -> Seq<char>
    decreases s.len(),
{
    if s.len() > 0 && is_id_char(s[0]) {
        seq![s[0]] + id_run(s.drop_first())
    } else {
        Seq::empty()
    }
}

/// What follows the Instagram origin, with or without `www.`.
pub open spec fn after_origin(s: Seq<char>) -> Option<Seq<char>> {
    if has_prefix(s, "https://www.instagram.com/"@) {
        Some(s.skip("https://www.instagram.com/"@.len() as int))
    } else if has_prefix(s, "https://instagram.com/"@) {
        Some(s.skip("https://instagram.com/"@.len() as int))
    } else {
        None
    }
}

/// What follows the `p/`, `reel/` or `reels/` segment of a path.
pub open spec fn after_kind(path: Seq<char>) -> Option<Seq<char>> {
    if has_prefix(path, "p/"@) {
        Some(path.skip(2))
    } else if has_prefix(path, "reels/"@) {
        Some(path.skip(6))
    } else if has_prefix(path, "reel/"@) {
        Some(path.skip(5))
    } else {
        None
    }
}

/// The id of the post or reel that a link names: the link starts with
/// `https://instagram.com/` or `https://www.instagram.com/`, then `p/`,
/// `reel/` or `reels/`, then at least one id character; the id is the whole
/// run of id characters there.
pub open spec fn post_id_of(url: Seq<char>) -> Option<Seq<char>> {
    match after_origin(url) {
        Some(path) => match after_kind(path) {
            Some(rest) => if id_run(rest).len() > 0 {
                Some(id_run(rest))
            } else {
                None
            },
            None => None,
        },
        None => None,
    }
}

proof fn lemma_id_run_prefix(s: Seq<char>, k: int)
    requires
        0 <= k <= s.len(),
        forall|i: int| 0 <= i < k ==> is_id_char(s[i]),
        k < s.len() ==> !is_id_char(s[k]),
    ensures
        id_run(s) == s.subrange(0, k),
    decreases s.len(),
{
    if k == 0 {
        assert(s.subrange(0, 0) =~= Seq::<char>::empty());
    } else {
        let t = s.drop_first();
        assert forall|i: int| 0 <= i < k - 1 implies is_id_char(t[i]) by {
            assert(t[i] == s[i + 1]);
        }
        lemma_id_run_prefix(t, k - 1);
        assert(s.subrange(0, k) =~= seq![s[0]] + t.subrange(0, k - 1));
    }
}

fn id_char(c: char) -> (r: bool)
    ensures
        r == is_id_char(c),
{
    ('a' <= c && c <= 'z') || ('A' <= c && c <= 'Z') || ('0' <= c && c <= '9') || c == '_' || c
        == '-'
}

/// The run of id characters at the start of `s`.
fn leading_id(s: &str) -> (r: String)
    ensures
        r@ == id_run(s@),
{
    let n = s.unicode_len();
    let mut k: usize = 0;
    while k < n && id_char(s.get_char(k))
        invariant
            n == s@.len(),
            0 <= k <= n,
            forall|i: int| 0 <= i < k ==> is_id_char(s@[i]),
        decreases n - k,
    {
        k = k + 1;
    }
    proof {
        lemma_id_run_prefix(s@, k as int);
    }
    String::from_str(s.substring_char(0, k))
}

/// The path after the Instagram origin of `url`, if it has that origin.
fn path_after_origin(url: &str) -> (r: Option<String>)
    ensures
        after_origin(url@) matches Some(p) ==> (r matches Some(q) && q@ == p),
        after_origin(url@) is None ==> r is None,
{
    proof {
        reveal_strlit("https://www.instagram.com/");
        reveal_strlit("https://instagram.com/");
    }
    match strip_prefix(url, "https://www.instagram.com/") {
        Some(p) => {
            assert(p@ =~= url@.skip("https://www.instagram.com/"@.len() as int));
            Some(p)
        },
        None => match strip_prefix(url, "https://instagram.com/") {
            Some(p) => {
                assert(p@ =~= url@.skip("https://instagram.com/"@.len() as int));
                Some(p)
            },
            None => None,
        },
    }
}

/// The rest of `path` after its `p/`, `reel/` or `reels/` segment.
fn rest_after_kind(path: &str) -> (r: Option<String>)
    ensures
        after_kind(path@) matches Some(p) ==> (r matches Some(q) && q@ == p),
        after_kind(path@) is None ==> r is None,
{
    proof {
        reveal_strlit("p/");
        reveal_strlit("reels/");
        reveal_strlit("reel/");
    }
    match strip_prefix(path, "p/") {
        Some(p) => {
            assert(p@ =~= path@.skip(2));
            Some(p)
        },
        None => match strip_prefix(path, "reels/") {
            Some(p) => {
                assert(p@ =~= path@.skip(6));
                Some(p)
            },
            None => match strip_prefix(path, "reel/") {
                Some(p) => {
                    assert(p@ =~= path@.skip(5));
                    Some(p)
                },
                None => None,
            },
        },
    }
}

/// The id of the Instagram post or reel that `post_url` names.
pub fn get_post_id(post_url: &str) -> (r: Result<String, LinkError>)
    ensures
        post_id_of(post_url@) matches Some(id) ==> (r matches Ok(s) && s@ == id),
        post_id_of(post_url@) is None ==> r == Err::<String, LinkError>(LinkError::NoPostId),
{
    let path = match path_after_origin(post_url) {
        Some(p) => p,
        None => return Err(LinkError::NoPostId),
    };
    let rest = match rest_after_kind(path.as_str()) {
        Some(r) => r,
        None => return Err(LinkError::NoPostId),
    };
    let id = leading_id(rest.as_str());
    if id.unicode_len() == 0 {
        Err(LinkError::NoPostId)
    } else {
        Ok(id)
    }
}

pub open spec fn unsupported_url_marker() -> Seq<char> {
    "ERROR: Unsupported URL"@
}

/// Whether a downloader failure says that the link is not supported.
pub fn is_unsupported_url_error(message: &str) -> (r: bool)
    ensures
        r == occurs_in(message@, unsupported_url_marker()),
{
    contains_text(message, "ERROR: Unsupported URL")
}

} // verus!
