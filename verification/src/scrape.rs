//! Extraction of an entity's image from its wiki-style page.
//!
//! The page body is parsed as HTML and the first element carrying the class
//! `image` — the infobox image marker — is looked up; its `href` attribute is
//! a wiki-internal file link such as `/w/File:Name.png`. That link is turned
//! into a direct asset URL: the internal prefix is stripped, the remainder is
//! percent-encoded, and the asset base is prepended.

use crate::encode::url_encode;
use crate::encode::url_encode_str;
use crate::resolve::images_base;
use crate::resolve::images_base_str;
use crate::resolve::Attempt;
use vstd::prelude::*;
use vstd::string::StrSliceExecFns;
use vstd::string::StringExecFns;
use vstd::string::StringSliceAdditionalSpecFns;

verus! {

/// tl's parse error, carried through opaquely.
#[verifier::external_type_specification]
#[verifier::external_body]
pub struct ExParseError(tl::ParseError);

/// The `href` of the first element of class `image` in a given HTML text, as
/// tl's parser and query deliver it: a function of the text alone.
pub uninterp spec fn infobox_image_href(html: Seq<char>) -> Option<Seq<char>>;

/// Relies on tl::parse (default options; it fails exactly when the input's
/// byte length overflows a u32, and on nothing else) and
/// tl::VDom::query_selector with selector ".image": the first element of
/// class "image" in document order, and the value of its "href" attribute.
/// None when no such element exists, the node is no tag, or the attribute is
/// absent or valueless; the outcome depends on the text alone.
#[verifier::external_body]
fn first_image_href(html: &str) -> (r: Result<Option<String>, tl::ParseError>)
    ensures
        r is Err <==> html.spec_bytes().len() > 0xFFFF_FFFF,
        match r {
            Ok(Some(h)) => infobox_image_href(html@) == Some(h@),
            Ok(None) => infobox_image_href(html@) is None,
            Err(_) => true,
        },
{
    let dom = tl::parse(html, tl::ParserOptions::default())?;
    let parser = dom.parser();
    let node = dom.query_selector(".image").and_then(|mut it| it.next()).and_then(
        |handle| handle.get(parser),
    );
    let href = match node {
        Some(tl::Node::Tag(tag)) => tag.attributes().get("href").flatten(),
        _ => None,
    };
    Ok(href.map(|value| value.as_utf8_str().into_owned()))
}

/// The wiki-internal file-link prefix.
pub open spec fn file_link_prefix() -> Seq<char> {
    "/w/File:"@
}

/// The link with the wiki-internal file prefix removed, when it carries one.
pub open spec fn strip_file_prefix(link: Seq<char>) -> Seq<char> {
    if file_link_prefix().is_prefix_of(link) {
        link.skip(file_link_prefix().len() as int)
    } else {
        link
    }
}

/// The direct asset URL a scraped infobox link is rewritten to: the
/// prefix-stripped link, percent-encoded, under the asset base.
pub open spec fn image_source_spec(link: Seq<char>) -> Seq<char> {
    images_base() + url_encode(strip_file_prefix(link))
}

fn strip_file_prefix_exec(link: &str) -> (r: String)
    ensures
        r@ == strip_file_prefix(link@),
{
    let prefix = "/w/File:";
    let plen = prefix.unicode_len();
    let llen = link.unicode_len();
    if llen < plen {
        proof {
            assert(!file_link_prefix().is_prefix_of(link@));
        }
        return String::from_str(link);
    }
    let mut j: usize = 0;
    while j < plen
        invariant
            plen == file_link_prefix().len(),
            llen == link@.len(),
            plen <= llen,
            j <= plen,
            prefix@ == file_link_prefix(),
            forall|j2: int| 0 <= j2 < j ==> link@[j2] == file_link_prefix()[j2],
        decreases plen - j,
    {
        if link.get_char(j) != prefix.get_char(j) {
            proof {
                assert(link@.subrange(0, plen as int)[j as int] != file_link_prefix()[j as int]);
                assert(!file_link_prefix().is_prefix_of(link@));
            }
            return String::from_str(link);
        }
        j = j + 1;
    }
    proof {
        assert(file_link_prefix() =~= link@.subrange(0, plen as int));
        assert(file_link_prefix().is_prefix_of(link@));
        assert(link@.subrange(plen as int, llen as int) =~= link@.skip(plen as int));
    }
    String::from_str(link.substring_char(plen, llen))
}

/// Rewrite a scraped wiki-internal file link into a direct asset URL.
pub fn transform_wiki_link_to_img_source(wiki_link: &str) -> (r: String)
    ensures
        r@ == image_source_spec(wiki_link@),
{
    let stripped = strip_file_prefix_exec(wiki_link);
    let encoded = url_encode_str(stripped.as_str());
    let mut url = String::from_str(images_base_str());
    url.append(encoded.as_str());
    url
}

/// The scrape attempt an extracted link lookup yields: the rewritten asset
/// URL when the page carried the marker link, a plain miss when it did not.
pub fn attempt_from_lookup(lookup: Option<String>) -> (r: Attempt)
    ensures
        match lookup {
            Some(h) => r matches Attempt::Found(u) && u@ == image_source_spec(h@),
            None => r is NotFound,
        },
{
    match lookup {
        Some(h) => Attempt::Found(transform_wiki_link_to_img_source(h.as_str())),
        None => Attempt::NotFound,
    }
}

/// The scrape attempt for a fetched page body: the infobox image link is
/// extracted and rewritten into a direct asset URL; a page without the marker
/// is a plain miss. A hard error arises exactly when the parser refuses the
/// body, which happens only when its byte length overflows a u32.
pub fn scrape_attempt(html: &str) -> (r: Attempt)
    ensures
        r is HardError <==> html.spec_bytes().len() > 0xFFFF_FFFF,
        match r {
            Attempt::Found(u) => infobox_image_href(html@) matches Some(h) && u@
                == image_source_spec(h),
            Attempt::NotFound => infobox_image_href(html@) is None,
            Attempt::HardError => true,
        },
{
    match first_image_href(html) {
        Ok(lookup) => attempt_from_lookup(lookup),
        Err(_) => Attempt::HardError,
    }
}

} // verus!
