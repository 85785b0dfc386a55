//! Identifiers of analytics trackers in a page's markup.

use vstd::prelude::*;
use crate::text::{lemma_views_push, views_of};

verus! {

/// Whether `Regex::new` accepts a pattern.
pub uninterp spec fn pattern_is_valid(pattern: Seq<char>) -> bool;

/// For each match of a valid pattern in the haystack, from left to right
/// and without overlap as `Regex::captures_iter` finds them: the text of
/// the capture group `group`, or `None` where the group took no part in
/// the match or does not exist.
pub uninterp spec fn group_matches(pattern: Seq<char>, group: usize, haystack: Seq<char>) -> Seq<
    Option<Seq<char>>,
>;

/// The views of a list of optional texts.
pub open spec fn options_view(found: Seq<Option<String>>) -> Seq<Option<Seq<char>>> {
    Seq::new(
        found.len(),
        |i: int|
            match found[i] {
                Some(text) => Some(text@),
                None => None,
            },
    )
}

/// The text of one capture group in each match of a pattern, or `None`
/// where the pattern is not a valid expression.
///
/// Trusted: compiles the pattern with `Regex::new` and walks the matches
/// with `Regex::captures_iter`, `Captures::get` and `Match::as_str`; it
/// only converts what they yield. The contract names whether the pattern
/// compiles, and gives the matches the name `group_matches`.
#[verifier::external_body]
fn capture_group(pattern: &str, group: usize, haystack: &str) -> (found: Option<
    Vec<Option<String>>,
>)
    ensures
        match found {
            Some(texts) => pattern_is_valid(pattern@) && options_view(texts@) == group_matches(
                pattern@,
                group,
                haystack@,
            ),
            None => !pattern_is_valid(pattern@),
        },
{
    match regex::Regex::new(pattern) {
        Ok(expression) => Some(
            expression.captures_iter(haystack).map(
                |captures| captures.get(group).map(|matched| matched.as_str().to_string()),
            ).collect(),
        ),
        Err(_) => None,
    }
}

/// The texts that are present, in their order.
pub open spec fn present(found: Seq<Option<Seq<char>>>) -> Seq<Seq<char>>
    decreases found.len(),
{
    if found.len() == 0 {
        Seq::empty()
    } else {
        match found.last() {
            Some(text) => present(found.drop_last()).push(text),
            None => present(found.drop_last()),
        }
    }
}

/// Keeps the texts that are present, in their order.
pub fn keep_present(found: &Vec<Option<String>>) -> (kept: Vec<String>)
    ensures
        views_of(kept@) == present(options_view(found@)),
{
    let mut kept: Vec<String> = Vec::new();
    let mut i: usize = 0;
    assert(options_view(found@).take(0) =~= Seq::empty());
    assert(views_of(kept@) =~= Seq::empty());
    while i < found.len()
        invariant
            i <= found.len(),
            views_of(kept@) == present(options_view(found@).take(i as int)),
        decreases found.len() - i,
    {
        proof {
            let all = options_view(found@);
            assert(all.take(i + 1).drop_last() =~= all.take(i as int));
            assert(all.take(i + 1).last() == all[i as int]);
        }
        match &found[i] {
            Some(text) => {
                let copy = text.clone();
                proof {
                    lemma_views_push(kept@, copy);
                }
                kept.push(copy);
            },
            None => {},
        }
        i += 1;
    }
    assert(options_view(found@).take(found.len() as int) =~= options_view(found@));
    kept
}

/// The identifiers that a pattern finds in markup: the text of the given
/// capture group in each match, or nothing where the pattern is not a
/// valid expression.
pub open spec fn identifiers(pattern: Seq<char>, group: usize, html: Seq<char>) -> Seq<Seq<char>> {
    if pattern_is_valid(pattern) {
        present(group_matches(pattern, group, html))
    } else {
        Seq::empty()
    }
}

/// Finds the identifiers that a pattern describes in markup.
pub fn find_identifiers(pattern: &str, group: usize, html: &str) -> (found: Vec<String>)
    ensures
        views_of(found@) == identifiers(pattern@, group, html@),
{
    match capture_group(pattern, group, html) {
        Some(groups) => keep_present(&groups),
        None => {
            let found: Vec<String> = Vec::new();
            assert(views_of(found@) =~= Seq::empty());
            found
        },
    }
}

/// The trackers that are looked for.
#[derive(Clone, Copy, Debug, PartialEq, Eq, Hash, Structural)]
pub enum Trackers {
    GoogleAnalytics,
    GoogleTagManager,
    FacebookPixel,
    Mixpanel,
}

/// The pattern that finds a tracker's identifiers.
pub open spec fn pattern_text(tracker: Trackers) -> Seq<char> {
    match tracker {
        Trackers::GoogleAnalytics => "UA-\\d+-\\d+|G-[A-Z0-9]+"@,
        Trackers::GoogleTagManager => "(?i)GTM-[A-Z0-9]+"@,
        Trackers::FacebookPixel => "(?i)fbq\\('init', '(\\d+)'\\)"@,
        Trackers::Mixpanel => "(?i)mixpanel\\.init\\('([a-z0-9]+)'\\)"@,
    }
}

/// The capture group of a tracker's pattern that holds the identifier:
/// the whole match for the first two, the first group for the others.
pub open spec fn identifier_group(tracker: Trackers) -> usize {
    match tracker {
        Trackers::GoogleAnalytics => 0,
        Trackers::GoogleTagManager => 0,
        Trackers::FacebookPixel => 1,
        Trackers::Mixpanel => 1,
    }
}

impl Trackers {
    /// The pattern that finds the tracker's identifiers.
    pub fn pattern(&self) -> (pattern: &'static str)
        ensures
            pattern@ == pattern_text(*self),
    {
        match self {
            Trackers::GoogleAnalytics => "UA-\\d+-\\d+|G-[A-Z0-9]+",
            Trackers::GoogleTagManager => "(?i)GTM-[A-Z0-9]+",
            Trackers::FacebookPixel => "(?i)fbq\\('init', '(\\d+)'\\)",
            Trackers::Mixpanel => "(?i)mixpanel\\.init\\('([a-z0-9]+)'\\)",
        }
    }

    /// The capture group of the pattern that holds the identifier.
    pub fn group(&self) -> (group: usize)
        ensures
            group == identifier_group(*self),
    {
        match self {
            Trackers::GoogleAnalytics => 0,
            Trackers::GoogleTagManager => 0,
            Trackers::FacebookPixel => 1,
            Trackers::Mixpanel => 1,
        }
    }
}

/// The tracker identifiers found in one page.
#[derive(Debug)]
pub struct PageTrackers {
    pub google_analytics: Vec<String>,
    pub google_tag_manager: Vec<String>,
    pub facebook_pixel: Vec<String>,
    pub mixpanel: Vec<String>,
}

impl PageTrackers {
    /// The identifiers found for a tracker, in the order of the markup.
    pub open spec fn found(&self, tracker: Trackers) -> Seq<Seq<char>> {
        match tracker {
            Trackers::GoogleAnalytics => views_of(self.google_analytics@),
            Trackers::GoogleTagManager => views_of(self.google_tag_manager@),
            Trackers::FacebookPixel => views_of(self.facebook_pixel@),
            Trackers::Mixpanel => views_of(self.mixpanel@),
        }
    }

    /// Looks for the identifiers of every tracker in a page's markup.
    pub fn from_html(html: &str) -> (page: Self)
        ensures
            forall|tracker: Trackers| #[trigger]
                page.found(tracker) == identifiers(
                    pattern_text(tracker),
                    identifier_group(tracker),
                    html@,
                ),
    {
        let ga = Trackers::GoogleAnalytics;
        let gtm = Trackers::GoogleTagManager;
        let fb = Trackers::FacebookPixel;
        let mp = Trackers::Mixpanel;
        PageTrackers {
            google_analytics: find_identifiers(ga.pattern(), ga.group(), html),
            google_tag_manager: find_identifiers(gtm.pattern(), gtm.group(), html),
            facebook_pixel: find_identifiers(fb.pattern(), fb.group(), html),
            mixpanel: find_identifiers(mp.pattern(), mp.group(), html),
        }
    }

    /// The identifiers found for a tracker.
    pub fn get(&self, tracker: Trackers) -> (ids: &Vec<String>)
        ensures
            views_of(ids@) == self.found(tracker),
    {
        match tracker {
            Trackers::GoogleAnalytics => &self.google_analytics,
            Trackers::GoogleTagManager => &self.google_tag_manager,
            Trackers::FacebookPixel => &self.facebook_pixel,
            Trackers::Mixpanel => &self.mixpanel,
        }
    }
}

} // verus!
