//! Choosing a peripheral by its advertised name.

use crate::error::RunError;
use crate::text::{contains_text, has_substring, lowercase, to_lowercase};
use vstd::prelude::*;

verus! {

/// What came back when the advertised properties of one discovered
/// peripheral were asked for.
#[derive(Clone, Debug, PartialEq, Eq)]
pub enum Advertisement {
    /// The properties could not be fetched.
    Unavailable,
    /// The properties were fetched; the peripheral may advertise no name.
    Received { local_name: Option<String> },
}

/// An `Advertisement` with its name as a sequence of characters.
pub enum AdvertisementView {
    Unavailable,
    Received { local_name: Option<Seq<char>> },
}

impl View for Advertisement {
    type V = AdvertisementView;

    open spec fn view(&self) -> AdvertisementView {
        match self {
            Advertisement::Unavailable => AdvertisementView::Unavailable,
            Advertisement::Received { local_name: None } => AdvertisementView::Received {
                local_name: None,
            },
            Advertisement::Received { local_name: Some(name) } => AdvertisementView::Received {
                local_name: Some(name@),
            },
        }
    }
}

impl DeepView for Advertisement {
    type V = AdvertisementView;

    open spec fn deep_view(&self) -> AdvertisementView {
        self@
    }
}

/// The advertised name `name`, put into lower case, holds `target`.
pub open spec fn name_selected(name: Seq<char>, target: Seq<char>) -> bool {
    has_substring(lowercase(name), target)
}

/// The advertisement carries a name that `target` selects. A peripheral
/// without a name is never selected, and neither is one whose properties are
/// unavailable.
pub open spec fn selected(advertisement: AdvertisementView, target: Seq<char>) -> bool {
    advertisement matches AdvertisementView::Received { local_name: Some(name) } && name_selected(
        name,
        target,
    )
}

/// The advertisements before position `at` were all received, and `target`
/// selects none of them.
pub open spec fn passed_over(
    advertisements: Seq<AdvertisementView>,
    target: Seq<char>,
    at: int,
) -> bool {
    forall|j: int|
        0 <= j < at ==> advertisements[j] is Received && !selected(
            #[trigger] advertisements[j],
            target,
        )
}

/// What a scan of `advertisements` for `target` comes to: the first
/// advertisement in list order that is either unavailable or selected decides
/// it, and where there is none, nothing is found.
pub open spec fn is_scan_result(
    advertisements: Seq<AdvertisementView>,
    target: Seq<char>,
    result: Result<Option<usize>, RunError>,
) -> bool {
    match result {
        Ok(Some(at)) => {
            &&& at < advertisements.len()
            &&& selected(advertisements[at as int], target)
            &&& passed_over(advertisements, target, at as int)
        },
        Ok(None) => passed_over(advertisements, target, advertisements.len() as int),
        Err(reason) => {
            &&& reason == RunError::ScanProperty
            &&& exists|at: int|
                0 <= at < advertisements.len() && #[trigger] advertisements[at] is Unavailable
                    && passed_over(advertisements, target, at)
        },
    }
}

/// The case of an advertised name does not matter: two names with the same
/// lower-case form are selected by the same targets.
pub proof fn lemma_matching_ignores_case(first: Seq<char>, second: Seq<char>, target: Seq<char>)
    requires
        lowercase(first) == lowercase(second),
    ensures
        name_selected(first, target) == name_selected(second, target),
{
}

/// Whether an advertised name selects its peripheral: the name is put into
/// lower case and searched for `target`, which is taken as it stands.
pub fn name_matches(name: &str, target: &str) -> (hit: bool)
    ensures
        hit == name_selected(name@, target@),
{
    let lowered = to_lowercase(name);
    contains_text(lowered.as_str(), target)
}

/// Whether one advertisement selects its peripheral, or `ScanProperty` where
/// the advertisement is unavailable.
pub fn inspect(advertisement: &Advertisement, target: &str) -> (verdict: Result<bool, RunError>)
    ensures
        match verdict {
            Ok(hit) => advertisement@ is Received && hit == selected(advertisement@, target@),
            Err(reason) => advertisement@ is Unavailable && reason == RunError::ScanProperty,
        },
{
    match advertisement {
        Advertisement::Unavailable => Err(RunError::ScanProperty),
        Advertisement::Received { local_name: None } => Ok(false),
        Advertisement::Received { local_name: Some(name) } => Ok(name_matches(name.as_str(), target)),
    }
}

/// Goes through the peripherals that a scan has discovered, in list order,
/// and returns the position of the first whose advertised name, in lower
/// case, holds `target`.
///
/// An advertisement that is unavailable ends the scan with `ScanProperty`
/// where it is reached before any match; past the first match nothing is
/// looked at. `Ok(None)` says that every advertisement was received and none
/// was selected.
pub fn find_light(advertisements: &Vec<Advertisement>, target: &str) -> (result: Result<
    Option<usize>,
    RunError,
>)
    ensures
        is_scan_result(advertisements.deep_view(), target@, result),
{
    let mut at: usize = 0;
    while at < advertisements.len()
        invariant
            at <= advertisements.len(),
            passed_over(advertisements.deep_view(), target@, at as int),
        decreases advertisements.len() - at,
    {
        match inspect(&advertisements[at], target) {
            Err(reason) => {
                assert(advertisements.deep_view()[at as int] is Unavailable);
                return Err(reason);
            },
            Ok(true) => {
                return Ok(Some(at));
            },
            Ok(false) => {},
        }
        at += 1;
    }
    Ok(None)
}

} // verus!
