//! The two-stage resolution protocol for one entity.
//!
//! Resolution probes a predictable direct asset URL first and falls back to
//! scraping the entity's page only when that probe does not succeed. A small
//! state machine records where one entity stands; the caller performs the
//! fetches and feeds each outcome back in. Hard errors (transport or parse
//! failures) never abort anything: they are treated as a miss and resolution
//! moves on.

use crate::encode::make_name_urlsafe;
use crate::encode::urlsafe_name;
use crate::entity::DataEntry;
use vstd::prelude::*;
use vstd::string::StringExecFns;

verus! {

/// What one resolver attempt yielded: a final asset URL, a legitimate miss,
/// or a hard failure (transport or parse) that is tolerated per entity.
#[derive(Debug, PartialEq, Eq)]
pub enum Attempt {
    Found(String),
    NotFound,
    HardError,
}

/// The fixed URL prefix of the entities' informational HTML pages.
pub open spec fn wiki_base() -> Seq<char> {
    "https://oldschool.runescape.wiki/"@
}

/// The fixed URL prefix under which direct image assets are hosted.
pub open spec fn images_base() -> Seq<char> {
    "https://oldschool.runescape.wiki/images/"@
}

/// The page base as a string.
pub fn wiki_base_str() -> (r: &'static str)
    ensures
        r@ == wiki_base(),
{
    "https://oldschool.runescape.wiki/"
}

/// The asset base as a string.
pub fn images_base_str() -> (r: &'static str)
    ensures
        r@ == images_base(),
{
    "https://oldschool.runescape.wiki/images/"
}

/// The predictable direct asset URL probed for an entity name.
pub open spec fn chathead_url_spec(name: Seq<char>) -> Seq<char> {
    images_base() + urlsafe_name(name) + "_chathead.png"@
}

/// The URL of an entity's informational HTML page.
pub open spec fn page_url_spec(name: Seq<char>) -> Seq<char> {
    wiki_base() + urlsafe_name(name)
}

/// Build the direct asset URL for an entity name.
pub fn chathead_url(name: &str) -> (r: String)
    ensures
        r@ == chathead_url_spec(name@),
{
    let mut url = String::from_str(images_base_str());
    let token = make_name_urlsafe(name);
    url.append(token.as_str());
    url.append("_chathead.png");
    url
}

/// Build the page URL for an entity name.
pub fn page_url(name: &str) -> (r: String)
    ensures
        r@ == page_url_spec(name@),
{
    let mut url = String::from_str(wiki_base_str());
    let token = make_name_urlsafe(name);
    url.append(token.as_str());
    url
}

/// Whether an HTTP status code lies in the success range.
pub open spec fn is_success_status(status: u16) -> bool {
    200 <= status < 300
}

/// The direct-probe attempt derived from an HTTP response status: the probed
/// URL itself on a success status, a plain miss on any other status.
pub fn classify_direct_response(url: String, status: u16) -> (r: Attempt)
    ensures
        is_success_status(status) ==> r == Attempt::Found(url),
        !is_success_status(status) ==> r == Attempt::NotFound,
{
    if 200 <= status && status < 300 {
        Attempt::Found(url)
    } else {
        Attempt::NotFound
    }
}

/// Where the resolution of one entity stands: which fetch is pending, or the
/// terminal outcome.
#[derive(Debug, PartialEq, Eq)]
pub enum ResolveState {
    AwaitingDirect,
    AwaitingScrape,
    Resolved(String),
    Unresolved,
}

impl ResolveState {
    /// A state in which resolution is finished and no request is pending.
    pub open spec fn is_terminal(self) -> bool {
        self is Resolved || self is Unresolved
    }

    /// The transition taken on the outcome of the pending attempt. Terminal
    /// states never change: a recorded URL is never overwritten.
    pub open spec fn step_spec(self, a: Attempt) -> ResolveState {
        match self {
            ResolveState::AwaitingDirect => match a {
                Attempt::Found(u) => ResolveState::Resolved(u),
                _ => ResolveState::AwaitingScrape,
            },
            ResolveState::AwaitingScrape => match a {
                Attempt::Found(u) => ResolveState::Resolved(u),
                _ => ResolveState::Unresolved,
            },
            _ => self,
        }
    }

    /// The image value a terminal state dictates: the resolved URL, or the
    /// empty string when unresolved.
    pub open spec fn image_spec(self) -> Seq<char>
        recommends
            self.is_terminal(),
    {
        match self {
            ResolveState::Resolved(u) => u@,
            _ => Seq::<char>::empty(),
        }
    }

    /// Whether resolution is finished and no request is pending.
    pub fn is_finished(&self) -> (r: bool)
        ensures
            r == self.is_terminal(),
    {
        match self {
            ResolveState::Resolved(_) => true,
            ResolveState::Unresolved => true,
            _ => false,
        }
    }

    /// Resolution of one entity begins with the direct probe.
    pub fn start() -> (r: Self)
        ensures
            r == ResolveState::AwaitingDirect,
    {
        ResolveState::AwaitingDirect
    }

    /// Feed the outcome of the pending attempt into the state machine.
    pub fn step(self, a: Attempt) -> (r: Self)
        ensures
            r == self.step_spec(a),
    {
        match self {
            ResolveState::AwaitingDirect => match a {
                Attempt::Found(u) => ResolveState::Resolved(u),
                _ => ResolveState::AwaitingScrape,
            },
            ResolveState::AwaitingScrape => match a {
                Attempt::Found(u) => ResolveState::Resolved(u),
                _ => ResolveState::Unresolved,
            },
            _ => self,
        }
    }

    /// The URL the caller must fetch next for the given entity name: the
    /// direct asset URL first, the page URL on fallback, nothing once the
    /// state is terminal.
    pub open spec fn pending_url_spec(self, name: Seq<char>) -> Option<Seq<char>> {
        match self {
            ResolveState::AwaitingDirect => Some(chathead_url_spec(name)),
            ResolveState::AwaitingScrape => Some(page_url_spec(name)),
            _ => None,
        }
    }

    /// Build the URL of the pending fetch, if one is pending.
    pub fn pending_url(&self, name: &str) -> (r: Option<String>)
        ensures
            match r {
                Some(u) => self.pending_url_spec(name@) == Some(u@),
                None => self.pending_url_spec(name@) is None,
            },
    {
        match self {
            ResolveState::AwaitingDirect => Some(chathead_url(name)),
            ResolveState::AwaitingScrape => Some(page_url(name)),
            _ => None,
        }
    }
}

/// The entry as it stands once a terminal resolution is written into it:
/// `image` takes the resolved URL, everything else is untouched.
pub open spec fn resolved_entry(e: DataEntry, st: ResolveState) -> DataEntry
    recommends
        st.is_terminal(),
{
    match st {
        ResolveState::Resolved(u) => DataEntry { image: u, ..e },
        _ => e,
    }
}

/// Write a finished resolution into its entity. Only `image` can change, and
/// it changes only to a resolved URL.
pub fn apply_resolution(e: &mut DataEntry, st: &ResolveState)
    requires
        st.is_terminal(),
    ensures
        *final(e) == resolved_entry(*old(e), *st),
        final(e).name == old(e).name,
        final(e).gender == old(e).gender,
        final(e).race == old(e).race,
        final(e).region == old(e).region,
        final(e).combat_level == old(e).combat_level,
        final(e).release_date == old(e).release_date,
        st matches ResolveState::Resolved(u) ==> final(e).image == u,
        st is Unresolved ==> final(e).image == old(e).image,
{
    match st {
        ResolveState::Resolved(u) => {
            e.image = u.clone();
            proof {
                assert(*e =~= resolved_entry(*old(e), *st));
            }
        },
        _ => {
            proof {
                assert(*e =~= resolved_entry(*old(e), *st));
            }
        },
    }
}

/// Law: a terminal state never changes; in particular a recorded URL is never
/// overwritten by any later attempt.
pub proof fn lemma_terminal_stable(st: ResolveState, a: Attempt)
    requires
        st.is_terminal(),
    ensures
        st.step_spec(a) == st,
{
}

/// Law: when the direct probe succeeds, resolution is complete at once — the
/// machine records that URL, reaches a terminal state, and never asks for the
/// page fetch of any entity name.
pub proof fn lemma_direct_success_skips_scrape(u: String, name: Seq<char>)
    ensures
        ResolveState::AwaitingDirect.step_spec(Attempt::Found(u)) == ResolveState::Resolved(u),
        ResolveState::AwaitingDirect.step_spec(Attempt::Found(u)).is_terminal(),
        ResolveState::AwaitingDirect.step_spec(Attempt::Found(u)).pending_url_spec(name) is None,
{
}

/// Law: when the direct probe misses or fails hard and the scrape succeeds,
/// the final image is the scrape's URL.
pub proof fn lemma_fallback_takes_scrape_url(d: Attempt, u: String)
    requires
        !(d is Found),
    ensures
        ResolveState::AwaitingDirect.step_spec(d).step_spec(Attempt::Found(u))
            == ResolveState::Resolved(u),
        ResolveState::AwaitingDirect.step_spec(d).step_spec(Attempt::Found(u)).image_spec() == u@,
{
}

/// Law: when both attempts miss or fail hard, the entity ends unresolved: its
/// image stays the empty string it started as, and no other field changes.
pub proof fn lemma_both_miss_leaves_entity(d: Attempt, s: Attempt, e: DataEntry)
    requires
        !(d is Found),
        !(s is Found),
        e.image@ == Seq::<char>::empty(),
    ensures
        ResolveState::AwaitingDirect.step_spec(d).step_spec(s) == ResolveState::Unresolved,
        resolved_entry(e, ResolveState::AwaitingDirect.step_spec(d).step_spec(s)) == e,
        resolved_entry(e, ResolveState::AwaitingDirect.step_spec(d).step_spec(s)).image@
            == Seq::<char>::empty(),
{
}

} // verus!
