//! Addresses of the remote service and of this service itself.
//!
//! An address is a `url::Url`. Verus sees nothing inside one, so this module
//! names its text and states what the operations of `url` that this crate
//! calls do to that text. Those statements are believed, not proved.

use vstd::prelude::*;
use vstd::string::StrSliceExecFns;
use crate::text::texts;

verus! {

/// `url::Url`: an address, of which nothing is known but what the items
/// below say.
#[verifier::external_type_specification]
#[verifier::external_body]
pub struct ExUrl(url::Url);

/// `url::ParseError`: why a reference could not be resolved. It is carried,
/// not read.
#[verifier::external_type_specification]
#[verifier::external_body]
pub struct ExParseError(url::ParseError);

/// The text of an address, as `Url::as_str` gives it.
pub uninterp spec fn address(url: url::Url) -> Seq<char>;

/// The text of the address that `Url::join` resolves a reference to against
/// a base, `None` where it reports an error.
pub uninterp spec fn joined(base: Seq<char>, reference: Seq<char>) -> Option<Seq<char>>;

/// The text of an address after `PathSegmentsMut::extend` has appended
/// path segments to it.
pub uninterp spec fn extended(base: Seq<char>, segments: Seq<Seq<char>>) -> Seq<char>;

/// What follows the first `:` of a text, which in an address ends the scheme.
pub open spec fn after_scheme(text: Seq<char>) -> Seq<char>
    decreases text.len(),
{
    if text.len() == 0 {
        text
    } else if text[0] == ':' {
        text.drop_first()
    } else {
        after_scheme(text.drop_first())
    }
}

/// An address cannot be a base when its scheme and `:` are not followed by a
/// `/`, as in `mailto:` and `data:` addresses. Such an address has no path
/// segments and no reference can be resolved against it.
pub open spec fn is_not_a_base(text: Seq<char>) -> bool {
    !(after_scheme(text).len() > 0 && after_scheme(text)[0] == '/')
}

/// An upper bound on the bytes by which appended path segments lengthen an
/// address: a character has at most four bytes, each byte of a segment
/// becomes at most a three-byte escape, and each segment brings at most a few
/// separators of its own.
pub open spec fn growth(segments: Seq<Seq<char>>) -> int
    decreases segments.len(),
{
    if segments.len() == 0 {
        0
    } else {
        growth(segments.drop_last()) + 12 * segments.last().len() + 4
    }
}

/// Whether an address stays within the length that `url` can hold when the
/// segments are appended to it.
pub open spec fn has_room(text: Seq<char>, segments: Seq<Seq<char>>) -> bool {
    4 * text.len() + growth(segments) <= ADDRESS_LIMIT
}

/// The longest address, in bytes, that `url` can hold.
pub const ADDRESS_LIMIT: u64 = 0xffff_ffff;

/// `Url::as_str`: the text of the address.
pub assume_specification<'a>[ url::Url::as_str ](url: &'a url::Url) -> (r: &'a str)
    ensures
        r@ == address(*url),
;

/// `Url::cannot_be_a_base`: whether the scheme and `:` are not followed by a
/// `/`.
pub assume_specification[ url::Url::cannot_be_a_base ](url: &url::Url) -> (r: bool)
    ensures
        r == is_not_a_base(address(*url)),
;

/// `Url::join`: the outcome depends on the two texts alone.
pub assume_specification[ url::Url::join ](base: &url::Url, reference: &str) -> (r: Result<
    url::Url,
    url::ParseError,
>)
    ensures
        match r {
            Ok(url) => joined(address(*base), reference@) == Some(address(url)),
            Err(_) => joined(address(*base), reference@) is None,
        },
;

/// `Url::clone`: the same address.
pub assume_specification[ <url::Url as Clone>::clone ](url: &url::Url) -> (r: url::Url)
    ensures
        r == *url,
;

/// `Url::path_segments_mut` followed by `PathSegmentsMut::extend`. The first
/// refuses an address that cannot be a base, which is then left as it was;
/// otherwise the new text depends on the old text and the segments alone. The
/// `requires` keeps the result within the length that `url` can index.
#[verifier::external_body]
pub(crate) fn extend_path(url: &mut url::Url, segments: &Vec<String>) -> (done: bool)
    requires
        has_room(address(*old(url)), texts(segments@)),
    ensures
        done == !is_not_a_base(address(*old(url))),
        done ==> address(*final(url)) == extended(address(*old(url)), texts(segments@)),
        !done ==> *final(url) == *old(url),
{
    match url.path_segments_mut() {
        Ok(mut path) => {
            path.extend(segments);
            true
        },
        Err(()) => false,
    }
}

/// Why an address could not be built.
#[derive(Debug)]
pub enum PathError {
    /// The reference could not be resolved against the base.
    Unresolved(url::ParseError),
    /// The address cannot be a base, so it has no path to append to.
    CannotBeABase,
    /// The address would be longer than an address can be.
    TooLong,
}

/// `ParseError::to_string`: what the error says of itself.
#[verifier::external_body]
pub(crate) fn parse_error_text(error: &url::ParseError) -> String {
    error.to_string()
}

impl PathError {
    /// What the error says, for people to read. Of a reference that could
    /// not be resolved it is what the resolver said.
    pub fn message(&self) -> (r: String)
        ensures
            self is CannotBeABase ==> r@ == "the address cannot be a base"@,
            self is TooLong ==> r@ == "the address is too long"@,
    {
        match self {
            PathError::Unresolved(error) => parse_error_text(error),
            PathError::CannotBeABase => "the address cannot be a base".to_owned(),
            PathError::TooLong => "the address is too long".to_owned(),
        }
    }
}

/// The address under which this service is reached from outside.
#[derive(Debug, Clone)]
pub struct RootAddress(pub url::Url);

proof fn lemma_growth_grows(segments: Seq<Seq<char>>, n: int)
    requires
        0 <= n <= segments.len(),
    ensures
        0 <= growth(segments.take(n)) <= growth(segments),
    decreases segments.len() - n,
{
    if n == segments.len() {
        assert(segments.take(n) =~= segments);
        lemma_growth_positive(segments);
    } else {
        lemma_growth_grows(segments, n + 1);
        assert(segments.take(n + 1).drop_last() =~= segments.take(n));
        lemma_growth_positive(segments.take(n));
    }
}

proof fn lemma_growth_positive(segments: Seq<Seq<char>>)
    ensures
        0 <= growth(segments),
    decreases segments.len(),
{
    if segments.len() > 0 {
        lemma_growth_positive(segments.drop_last());
    }
}

/// Tests whether an address stays within the limit when the segments are
/// appended.
pub fn room_for(url: &url::Url, segments: &Vec<String>) -> (r: bool)
    ensures
        r == has_room(address(*url), texts(segments@)),
{
    let ghost all = texts(segments@);
    let start = url.as_str().unicode_len();
    proof {
        lemma_growth_positive(all);
    }
    if start as u64 > ADDRESS_LIMIT {
        return false;
    }
    let mut total: u64 = 4 * (start as u64);
    if total > ADDRESS_LIMIT {
        return false;
    }
    let mut i: usize = 0;
    while i < segments.len()
        invariant
            i <= segments.len(),
            all == texts(segments@),
            total == 4 * address(*url).len() + growth(all.take(i as int)),
            total <= ADDRESS_LIMIT,
        decreases segments.len() - i,
    {
        let length = segments[i].as_str().unicode_len();
        proof {
            lemma_growth_grows(all, i + 1);
            lemma_growth_positive(all.take(i as int));
            assert(all.take(i + 1).drop_last() =~= all.take(i as int));
        }
        if length as u64 > ADDRESS_LIMIT {
            return false;
        }
        total = total + 12 * (length as u64) + 4;
        if total > ADDRESS_LIMIT {
            return false;
        }
        i += 1;
    }
    proof {
        assert(all.take(i as int) =~= all);
    }
    true
}

/// The address with path segments appended to it, each escaped as a path
/// segment is. An address that cannot be a base is refused, and so is a
/// result that would be too long.
pub fn with_segments(url: url::Url, segments: &Vec<String>) -> (r: Result<url::Url, PathError>)
    ensures
        match r {
            Ok(longer) => {
                &&& has_room(address(url), texts(segments@))
                &&& !is_not_a_base(address(url))
                &&& address(longer) == extended(address(url), texts(segments@))
            },
            Err(PathError::TooLong) => !has_room(address(url), texts(segments@)),
            Err(PathError::CannotBeABase) => {
                &&& has_room(address(url), texts(segments@))
                &&& is_not_a_base(address(url))
            },
            Err(PathError::Unresolved(_)) => false,
        },
{
    let mut url = url;
    if !room_for(&url, segments) {
        return Err(PathError::TooLong);
    }
    if extend_path(&mut url, segments) {
        Ok(url)
    } else {
        Err(PathError::CannotBeABase)
    }
}

} // verus!
