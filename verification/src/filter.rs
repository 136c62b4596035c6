//! Content filters: which windows and displays a listing of capturable content keeps, with the
//! macOS specific options (a range of window levels, excluded applications, excluded windows).
use vstd::prelude::*;
use crate::error::CapturableContentError;
use crate::level::{
    get_window_level, level_of_description, MacosWindowLevel, WindowDescription, WindowLevels,
};
use crate::text::{lowercase, to_lowercase};
use crate::window::{MacosCapturableDisplay, MacosCapturableWindow};

verus! {

/// Which windows a content listing asks the window server for.
#[derive(Copy, Clone, Debug, PartialEq, Eq, Structural)]
pub struct CapturableWindowFilter {
    pub desktop_windows: bool,
    pub onscreen_only: bool,
}

/// The macOS specific part of a content filter.
#[derive(Debug)]
pub struct MacosCapturableContentFilter {
    pub window_level_range: (Option<MacosWindowLevel>, Option<MacosWindowLevel>),
    pub excluded_bundle_ids: Option<Vec<String>>,
    pub excluded_window_ids: Option<Vec<u32>>,
}

/// The abstract value of a macOS content filter.
pub struct FilterView {
    pub level_range: (Option<MacosWindowLevel>, Option<MacosWindowLevel>),
    pub excluded_bundle_ids: Option<Seq<Seq<char>>>,
    pub excluded_window_ids: Option<Seq<u32>>,
}

/// The characters of each string of a list.
pub open spec fn strings_view(v: Seq<String>) -> Seq<Seq<char>> {
    v.map_values(|s: String| s@)
}

impl View for MacosCapturableContentFilter {
    type V = FilterView;

    open spec fn view(&self) -> FilterView {
        FilterView {
            level_range: self.window_level_range,
            excluded_bundle_ids: match self.excluded_bundle_ids {
                Some(v) => Some(strings_view(v@)),
                None => None,
            },
            excluded_window_ids: match self.excluded_window_ids {
                Some(v) => Some(v@),
                None => None,
            },
        }
    }
}

/// The filter that keeps every window: no level range and nothing excluded.
pub open spec fn unrestricted_view() -> FilterView {
    FilterView { level_range: (None, None), excluded_bundle_ids: None, excluded_window_ids: None }
}

/// Whether `level` lies in the inclusive range `range`; a missing bound does not restrict.
pub open spec fn level_in_range(range: (Option<MacosWindowLevel>, Option<MacosWindowLevel>), level: MacosWindowLevel) -> bool {
    &&& (range.0 matches Some(min) ==> min.rank() <= level.rank())
    &&& (range.1 matches Some(max) ==> level.rank() <= max.rank())
}

/// Whether a range is well ordered: when both bounds are present the minimum is not above the
/// maximum. Every filter that the library builds has a well ordered range.
pub open spec fn range_ordered(range: (Option<MacosWindowLevel>, Option<MacosWindowLevel>)) -> bool {
    match range {
        (Some(min), Some(max)) => min.rank() <= max.rank(),
        _ => true,
    }
}

/// Whether a filter keeps a window with id `window_id`, whose owning application has the bundle
/// id `bundle_id`, and whose level lookup gave `level`:
/// - a known level must lie in the level range (an unknown level does not restrict);
/// - the lower-cased bundle id must not be among the excluded bundle ids;
/// - the window id must not be among the excluded window ids.
pub open spec fn window_allowed(
    f: FilterView,
    window_id: u32,
    bundle_id: Option<Seq<char>>,
    level: Result<MacosWindowLevel, ()>,
) -> bool {
    &&& (level matches Ok(l) ==> level_in_range(f.level_range, l))
    &&& (f.excluded_bundle_ids matches Some(ids) ==> !ids.contains(lowercase(bundle_id.unwrap())))
    &&& (f.excluded_window_ids matches Some(ids) ==> !ids.contains(window_id))
}

/// The bundle id of the application that owns a window, if it has one.
pub open spec fn owner_bundle_id(window: MacosCapturableWindow) -> Option<Seq<char>> {
    match window.owning_app {
        Some(app) => Some(app.bundle_id@),
        None => None,
    }
}

/// A list held in an optional field, with a missing list read as empty.
pub open spec fn listed<T>(list: Option<Seq<T>>) -> Seq<T> {
    match list {
        Some(s) => s,
        None => Seq::empty(),
    }
}

/// A filter with its level range replaced.
pub open spec fn with_level_range_view(
    f: FilterView,
    min: Option<MacosWindowLevel>,
    max: Option<MacosWindowLevel>,
) -> FilterView {
    FilterView { level_range: (min, max), excluded_bundle_ids: f.excluded_bundle_ids, excluded_window_ids: f.excluded_window_ids }
}

/// A filter that also excludes the bundle ids `ids`, lower-cased, after those it excluded.
pub open spec fn excluding_bundle_ids_view(f: FilterView, ids: Seq<Seq<char>>) -> FilterView {
    FilterView {
        level_range: f.level_range,
        excluded_bundle_ids: Some(listed(f.excluded_bundle_ids) + ids.map_values(|s: Seq<char>| lowercase(s))),
        excluded_window_ids: f.excluded_window_ids,
    }
}

/// A filter that also excludes the window ids `ids`, after those it excluded.
pub open spec fn excluding_window_ids_view(f: FilterView, ids: Seq<u32>) -> FilterView {
    FilterView {
        level_range: f.level_range,
        excluded_bundle_ids: f.excluded_bundle_ids,
        excluded_window_ids: Some(listed(f.excluded_window_ids) + ids),
    }
}

/// Law: a window whose id a filter excludes is never kept, whatever its level or application.
pub proof fn lemma_excluded_window_rejected(
    f: FilterView,
    window_id: u32,
    bundle_id: Option<Seq<char>>,
    level: Result<MacosWindowLevel, ()>,
)
    requires
        f.excluded_window_ids matches Some(ids) && ids.contains(window_id),
    ensures
        !window_allowed(f, window_id, bundle_id, level),
{
}

/// Law: after excluding the bundle ids `ids`, a window is not kept when the bundle id of its
/// application lower-cases to the same text as one of them (so `"COM.Example"` and
/// `"com.example"` exclude the same windows).
pub proof fn lemma_excluded_bundle_rejected(
    f: FilterView,
    ids: Seq<Seq<char>>,
    k: int,
    window_id: u32,
    bundle_id: Seq<char>,
    level: Result<MacosWindowLevel, ()>,
)
    requires
        0 <= k < ids.len(),
        lowercase(bundle_id) == lowercase(ids[k]),
    ensures
        !window_allowed(excluding_bundle_ids_view(f, ids), window_id, Some(bundle_id), level),
{
    let g = excluding_bundle_ids_view(f, ids);
    let all = listed(f.excluded_bundle_ids) + ids.map_values(|s: Seq<char>| lowercase(s));
    assert(all[listed(f.excluded_bundle_ids).len() + k] == lowercase(bundle_id));
}

/// Law: excluding more window ids never keeps a window that was not kept before.
pub proof fn lemma_window_exclusion_only_narrows(
    f: FilterView,
    ids: Seq<u32>,
    window_id: u32,
    bundle_id: Option<Seq<char>>,
    level: Result<MacosWindowLevel, ()>,
)
    ensures
        window_allowed(excluding_window_ids_view(f, ids), window_id, bundle_id, level)
            ==> window_allowed(f, window_id, bundle_id, level),
{
    if window_allowed(excluding_window_ids_view(f, ids), window_id, bundle_id, level) {
        if let Some(old_ids) = f.excluded_window_ids {
            if old_ids.contains(window_id) {
                let k = choose|k: int| 0 <= k < old_ids.len() && old_ids[k] == window_id;
                assert((old_ids + ids)[k] == window_id);
            }
        }
    }
}

/// Law: excluding more bundle ids never keeps a window that was not kept before.
pub proof fn lemma_bundle_exclusion_only_narrows(
    f: FilterView,
    ids: Seq<Seq<char>>,
    window_id: u32,
    bundle_id: Option<Seq<char>>,
    level: Result<MacosWindowLevel, ()>,
)
    ensures
        window_allowed(excluding_bundle_ids_view(f, ids), window_id, bundle_id, level)
            ==> window_allowed(f, window_id, bundle_id, level),
{
    if window_allowed(excluding_bundle_ids_view(f, ids), window_id, bundle_id, level) {
        if let Some(old_ids) = f.excluded_bundle_ids {
            let lowered = lowercase(bundle_id.unwrap());
            if old_ids.contains(lowered) {
                let k = choose|k: int| 0 <= k < old_ids.len() && old_ids[k] == lowered;
                assert((old_ids + ids.map_values(|s: Seq<char>| lowercase(s)))[k] == lowered);
            }
        }
    }
}

/// Law: excluding window ids in two steps excludes the same list as excluding them all at once.
pub proof fn lemma_window_exclusions_accumulate(f: FilterView, first: Seq<u32>, second: Seq<u32>)
    ensures
        excluding_window_ids_view(excluding_window_ids_view(f, first), second)
            == excluding_window_ids_view(f, first + second),
{
    assert(listed(f.excluded_window_ids) + first + second =~= listed(f.excluded_window_ids) + (first + second));
}

/// Law: excluding bundle ids in two steps excludes the same list as excluding them all at once.
pub proof fn lemma_bundle_exclusions_accumulate(f: FilterView, first: Seq<Seq<char>>, second: Seq<Seq<char>>)
    ensures
        excluding_bundle_ids_view(excluding_bundle_ids_view(f, first), second)
            == excluding_bundle_ids_view(f, first + second),
{
    let low = |s: Seq<char>| lowercase(s);
    assert((first + second).map_values(low) =~= first.map_values(low) + second.map_values(low));
    assert(listed(f.excluded_bundle_ids) + first.map_values(low) + second.map_values(low)
        =~= listed(f.excluded_bundle_ids) + (first.map_values(low) + second.map_values(low)));
}

/// Law: the unrestricted filter (the default one) keeps every window.
pub proof fn lemma_unrestricted_keeps_every_window(
    window_id: u32,
    bundle_id: Option<Seq<char>>,
    level: Result<MacosWindowLevel, ()>,
)
    ensures
        window_allowed(unrestricted_view(), window_id, bundle_id, level),
{
}

/// Law: the level range is inclusive. A window of known level that a filter with the range
/// `(min, max)` keeps lies within the range; and when the filter excludes nothing, every window
/// whose level lies within the range, bounds included, is kept.
pub proof fn lemma_level_range_inclusive(
    f: FilterView,
    min: Option<MacosWindowLevel>,
    max: Option<MacosWindowLevel>,
    window_id: u32,
    bundle_id: Option<Seq<char>>,
    level: MacosWindowLevel,
)
    ensures
        window_allowed(with_level_range_view(f, min, max), window_id, bundle_id, Ok(level))
            ==> (min matches Some(lo) ==> lo.rank() <= level.rank())
            && (max matches Some(hi) ==> level.rank() <= hi.rank()),
        f.excluded_bundle_ids is None && f.excluded_window_ids is None
            && (min matches Some(lo) ==> lo.rank() <= level.rank())
            && (max matches Some(hi) ==> level.rank() <= hi.rank())
            ==> window_allowed(with_level_range_view(f, min, max), window_id, bundle_id, Ok(level)),
{
}

/// Law: a window whose level cannot be looked up is judged by the exclusions alone; the level
/// range does not matter for it.
pub proof fn lemma_unknown_level_ignores_range(
    f: FilterView,
    min: Option<MacosWindowLevel>,
    max: Option<MacosWindowLevel>,
    window_id: u32,
    bundle_id: Option<Seq<char>>,
)
    ensures
        window_allowed(with_level_range_view(f, min, max), window_id, bundle_id, Err(()))
            == window_allowed(f, window_id, bundle_id, Err(())),
{
}

/// Law: the level range of a filter stays well ordered under every builder. The unrestricted
/// and the normal-windows filters are ordered, excluding bundle ids or window ids keeps the
/// range, and replacing the range succeeds only with an ordered one (see
/// `with_window_level_range`).
pub proof fn lemma_builders_keep_range_ordered(f: FilterView, bundle_ids: Seq<Seq<char>>, window_ids: Seq<u32>)
    ensures
        range_ordered(unrestricted_view().level_range),
        range_ordered((Some(MacosWindowLevel::Normal), Some(MacosWindowLevel::TornOffMenu))),
        range_ordered(f.level_range) ==> range_ordered(excluding_bundle_ids_view(f, bundle_ids).level_range),
        range_ordered(f.level_range) ==> range_ordered(excluding_window_ids_view(f, window_ids).level_range),
{
}

/// Law: what a filter keeps, stated clause by clause. A window is kept exactly when
/// - its level, when known, is at or above the range's minimum and at or below its maximum
///   (a missing bound does not restrict);
/// - no excluded bundle id equals the lower-cased bundle id of its application;
/// - no excluded window id equals its id.
/// Nothing else (which lists are set, prefixes of ids, other levels) matters.
pub proof fn lemma_window_allowed_exactly(
    f: FilterView,
    window_id: u32,
    bundle_id: Option<Seq<char>>,
    level: Result<MacosWindowLevel, ()>,
)
    ensures
        window_allowed(f, window_id, bundle_id, level) <==> {
            &&& (level matches Ok(l) ==> ((f.level_range.0 matches Some(lo) ==> lo.rank() <= l.rank())
                && (f.level_range.1 matches Some(hi) ==> l.rank() <= hi.rank())))
            &&& (f.excluded_bundle_ids matches Some(ids) ==> forall|k: int|
                0 <= k < ids.len() ==> #[trigger] ids[k] != lowercase(bundle_id.unwrap()))
            &&& (f.excluded_window_ids matches Some(ids) ==> forall|k: int|
                0 <= k < ids.len() ==> #[trigger] ids[k] != window_id)
        },
{
    if let Some(ids) = f.excluded_bundle_ids {
        let lowered = lowercase(bundle_id.unwrap());
        if ids.contains(lowered) {
            let k = choose|k: int| 0 <= k < ids.len() && ids[k] == lowered;
            assert(ids[k] == lowered);
        }
    }
    if let Some(ids) = f.excluded_window_ids {
        if ids.contains(window_id) {
            let k = choose|k: int| 0 <= k < ids.len() && ids[k] == window_id;
            assert(ids[k] == window_id);
        }
    }
}

/// Law: excluding window ids appends exactly those ids, unchanged and in order, to the excluded
/// list (an absent list counting as empty), leaves the level range and the excluded bundle ids
/// alone, and afterwards every window whose id is one of them is rejected.
pub proof fn lemma_excluding_window_ids_appends(
    f: FilterView,
    ids: Seq<u32>,
    bundle_id: Option<Seq<char>>,
    level: Result<MacosWindowLevel, ()>,
)
    ensures
        excluding_window_ids_view(f, ids).level_range == f.level_range,
        excluding_window_ids_view(f, ids).excluded_bundle_ids == f.excluded_bundle_ids,
        excluding_window_ids_view(f, ids).excluded_window_ids is Some,
        ({
            let old_ids = match f.excluded_window_ids {
                Some(o) => o,
                None => Seq::<u32>::empty(),
            };
            let new_ids = excluding_window_ids_view(f, ids).excluded_window_ids.unwrap();
            &&& new_ids.len() == old_ids.len() + ids.len()
            &&& forall|j: int| 0 <= j < old_ids.len() ==> #[trigger] new_ids[j] == old_ids[j]
            &&& forall|i: int| 0 <= i < ids.len() ==> #[trigger] new_ids[old_ids.len() + i] == ids[i]
        }),
        forall|i: int| 0 <= i < ids.len() ==> !window_allowed(
            excluding_window_ids_view(f, ids),
            #[trigger] ids[i],
            bundle_id,
            level,
        ),
{
    let old_ids = listed(f.excluded_window_ids);
    let new_ids = excluding_window_ids_view(f, ids).excluded_window_ids.unwrap();
    assert forall|i: int| 0 <= i < ids.len() implies !window_allowed(
        excluding_window_ids_view(f, ids),
        #[trigger] ids[i],
        bundle_id,
        level,
    ) by {
        assert(new_ids[old_ids.len() + i] == ids[i]);
    }
}

/// Law: excluding bundle ids appends exactly the lower-cased given ids, in order, to the
/// excluded list (an absent list counting as empty), and leaves the level range and the excluded
/// window ids alone.
pub proof fn lemma_excluding_bundle_ids_appends(f: FilterView, ids: Seq<Seq<char>>)
    ensures
        excluding_bundle_ids_view(f, ids).level_range == f.level_range,
        excluding_bundle_ids_view(f, ids).excluded_window_ids == f.excluded_window_ids,
        excluding_bundle_ids_view(f, ids).excluded_bundle_ids is Some,
        ({
            let old_ids = match f.excluded_bundle_ids {
                Some(o) => o,
                None => Seq::<Seq<char>>::empty(),
            };
            let new_ids = excluding_bundle_ids_view(f, ids).excluded_bundle_ids.unwrap();
            &&& new_ids.len() == old_ids.len() + ids.len()
            &&& forall|j: int| 0 <= j < old_ids.len() ==> #[trigger] new_ids[j] == old_ids[j]
            &&& forall|i: int| 0 <= i < ids.len() ==> #[trigger] new_ids[old_ids.len() + i] == lowercase(ids[i])
        }),
{
}

/// Law: setting a level range stores exactly the given bounds, whatever the filter held before,
/// and keeps both exclusion lists. A window that is not excluded and whose known level lies
/// within the given bounds (bounds included) is then kept.
pub proof fn lemma_with_level_range_stores_bounds(
    f: FilterView,
    min: Option<MacosWindowLevel>,
    max: Option<MacosWindowLevel>,
    window_id: u32,
    bundle_id: Option<Seq<char>>,
    level: MacosWindowLevel,
)
    ensures
        with_level_range_view(f, min, max).level_range == (min, max),
        with_level_range_view(f, min, max).excluded_bundle_ids == f.excluded_bundle_ids,
        with_level_range_view(f, min, max).excluded_window_ids == f.excluded_window_ids,
        window_allowed(f, window_id, bundle_id, Err(()))
            && (min matches Some(lo) ==> lo.rank() <= level.rank())
            && (max matches Some(hi) ==> level.rank() <= hi.rank())
            ==> window_allowed(with_level_range_view(f, min, max), window_id, bundle_id, Ok(level)),
{
    lemma_window_allowed_exactly(f, window_id, bundle_id, Err(()));
    lemma_window_allowed_exactly(with_level_range_view(f, min, max), window_id, bundle_id, Ok(level));
}

/// The message of the error for a range whose minimum lies above its maximum.
pub open spec fn inverted_range_message(min: MacosWindowLevel, max: MacosWindowLevel) -> Seq<char> {
    "Invalid window level range: minimum level: "@ + min.variant_name() + " is greater than maximum level: "@
        + max.variant_name()
}

/// Whether a list of excluded bundle ids holds one with the characters of `s`. `filter_scwindow`
/// asks this of the lower-cased bundle id of a window's application.
pub fn contains_string(list: &Vec<String>, s: &String) -> (found: bool)
    ensures
        found == strings_view(list@).contains(s@),
{
    let mut i: usize = 0;
    while i < list.len()
        invariant
            i <= list.len(),
            forall|j: int| 0 <= j < i ==> (#[trigger] list@[j])@ != s@,
        decreases list.len() - i,
    {
        if list[i] == *s {
            assert(strings_view(list@)[i as int] == s@);
            return true;
        }
        i = i + 1;
    }
    proof {
        if strings_view(list@).contains(s@) {
            let k = choose|k: int| 0 <= k < strings_view(list@).len() && strings_view(list@)[k] == s@;
            assert(list@[k]@ == s@);
        }
    }
    false
}

/// Whether a list of excluded window ids holds `id`.
pub fn contains_id(list: &Vec<u32>, id: u32) -> (found: bool)
    ensures
        found == list@.contains(id),
{
    let mut i: usize = 0;
    while i < list.len()
        invariant
            i <= list.len(),
            forall|j: int| 0 <= j < i ==> list@[j] != id,
        decreases list.len() - i,
    {
        if list[i] == id {
            assert(list@[i as int] == id);
            return true;
        }
        i = i + 1;
    }
    false
}

/// A copy of a list of strings.
fn copy_strings(list: &Vec<String>) -> (copy: Vec<String>)
    ensures
        strings_view(copy@) == strings_view(list@),
{
    let mut copy: Vec<String> = Vec::new();
    let mut i: usize = 0;
    while i < list.len()
        invariant
            i <= list.len(),
            copy@ == list@.take(i as int),
        decreases list.len() - i,
    {
        copy.push(list[i].clone());
        assert(list@.take(i + 1) =~= list@.take(i as int).push(list@[i as int]));
        i = i + 1;
    }
    assert(list@.take(list.len() as int) =~= list@);
    copy
}

/// A copy of a list of ids.
fn copy_ids(list: &Vec<u32>) -> (copy: Vec<u32>)
    ensures
        copy@ == list@,
{
    let mut copy: Vec<u32> = Vec::new();
    let mut i: usize = 0;
    while i < list.len()
        invariant
            i <= list.len(),
            copy@ == list@.take(i as int),
        decreases list.len() - i,
    {
        copy.push(list[i]);
        assert(list@.take(i + 1) =~= list@.take(i as int).push(list@[i as int]));
        i = i + 1;
    }
    assert(list@.take(list.len() as int) =~= list@);
    copy
}

impl Clone for MacosCapturableContentFilter {
    fn clone(&self) -> (copy: Self)
        ensures
            copy@ == self@,
    {
        let excluded_bundle_ids = match &self.excluded_bundle_ids {
            Some(v) => Some(copy_strings(v)),
            None => None,
        };
        let excluded_window_ids = match &self.excluded_window_ids {
            Some(v) => Some(copy_ids(v)),
            None => None,
        };
        MacosCapturableContentFilter {
            window_level_range: self.window_level_range,
            excluded_bundle_ids,
            excluded_window_ids,
        }
    }
}

impl Default for MacosCapturableContentFilter {
    fn default() -> (filter: Self)
        ensures
            filter@ == unrestricted_view(),
    {
        MacosCapturableContentFilter {
            window_level_range: (None, None),
            excluded_bundle_ids: None,
            excluded_window_ids: None,
        }
    }
}

impl MacosCapturableContentFilter {
    /// The filter that keeps the windows of the normal application levels
    /// (`Normal` to `TornOffMenu`) and excludes nothing.
    pub fn normal_windows() -> (filter: Self)
        ensures
            filter@ == (FilterView {
                level_range: (Some(MacosWindowLevel::Normal), Some(MacosWindowLevel::TornOffMenu)),
                excluded_bundle_ids: None,
                excluded_window_ids: None,
            }),
    {
        MacosCapturableContentFilter {
            window_level_range: (Some(MacosWindowLevel::Normal), Some(MacosWindowLevel::TornOffMenu)),
            excluded_bundle_ids: None,
            excluded_window_ids: None,
        }
    }

    /// Whether this filter keeps `window`. The level of the window is looked up (from the
    /// window server's thresholds `levels` and the window's `description`) only when a level
    /// range is set; a failed lookup does not reject the window.
    pub fn filter_scwindow(
        &self,
        window: &MacosCapturableWindow,
        levels: &WindowLevels,
        description: Result<WindowDescription, ()>,
    ) -> (allowed: bool)
        requires
            self.excluded_bundle_ids.is_some() ==> window.owning_app.is_some(),
        ensures
            allowed == window_allowed(
                self@,
                window.window_id,
                owner_bundle_id(*window),
                level_of_description(*levels, description),
            ),
    {
        let mut allow = true;
        if self.window_level_range.0.is_some() || self.window_level_range.1.is_some() {
            if let Ok(level) = get_window_level(levels, description) {
                let rank = level.as_i32();
                let in_range = match &self.window_level_range {
                    (Some(min), Some(max)) => rank >= min.as_i32() && rank <= max.as_i32(),
                    (Some(min), None) => rank >= min.as_i32(),
                    (None, Some(max)) => rank <= max.as_i32(),
                    (None, None) => true,
                };
                allow = allow && in_range;
            }
        }
        if let Some(excluded_bundle_ids) = &self.excluded_bundle_ids {
            let bundle_id = window.application().identifier();
            let lowered = to_lowercase(bundle_id.as_str());
            if contains_string(excluded_bundle_ids, &lowered) {
                allow = false;
            }
        }
        if let Some(excluded_window_ids) = &self.excluded_window_ids {
            if contains_id(excluded_window_ids, window.window_id) {
                allow = false;
            }
        }
        allow
    }

    /// Whether this filter keeps `display`: every display is kept.
    pub fn filter_scdisplay(&self, display: &MacosCapturableDisplay) -> (allowed: bool)
        ensures
            allowed,
    {
        true
    }
}

/// What a content listing asks for: which windows, whether displays, and the macOS options.
#[derive(Debug)]
pub struct CapturableContentFilter {
    pub windows: Option<CapturableWindowFilter>,
    pub displays: bool,
    pub impl_capturable_content_filter: MacosCapturableContentFilter,
}

impl CapturableContentFilter {
    /// A filter for the given windows and displays, with no macOS specific restriction.
    pub fn new(displays: bool, windows: Option<CapturableWindowFilter>) -> (filter: Self)
        ensures
            filter.displays == displays,
            filter.windows == windows,
            filter.impl_capturable_content_filter@ == unrestricted_view(),
    {
        CapturableContentFilter {
            windows,
            displays,
            impl_capturable_content_filter: MacosCapturableContentFilter::default(),
        }
    }

    /// The filter for every window, on screen or not, desktop windows included, and no display.
    pub fn all_windows() -> (filter: Self)
        ensures
            filter.displays == false,
            filter.windows == Some(CapturableWindowFilter { desktop_windows: true, onscreen_only: false }),
            filter.impl_capturable_content_filter@ == unrestricted_view(),
    {
        Self::new(false, Some(CapturableWindowFilter { desktop_windows: true, onscreen_only: false }))
    }
}

/// A capturable content filter with Mac OS specific options
pub trait MacosCapturableContentFilterExt: Sized {
    /// Set the range of "window levels" to filter to (inclusive)
    fn with_window_level_range(
        self,
        min: Option<MacosWindowLevel>,
        max: Option<MacosWindowLevel>,
    ) -> Result<Self, CapturableContentError>;

    /// Exclude windows who's applications have the provided bundle ids
    fn with_exclude_bundle_ids(self, bundle_id: &[&str]) -> Self;

    /// Exclude windows with the given CGWindowIDs
    fn with_exclude_window_ids(self, window_ids: &[u32]) -> Self;
}

impl MacosCapturableContentFilterExt for CapturableContentFilter {
    fn with_window_level_range(
        self,
        min: Option<MacosWindowLevel>,
        max: Option<MacosWindowLevel>,
    ) -> (result: Result<Self, CapturableContentError>)
        ensures
            !range_ordered((min, max)) ==> (result matches Err(e)
                && e.message_view() == inverted_range_message(min.unwrap(), max.unwrap())),
            range_ordered((min, max)) ==> (result matches Ok(f) && f.windows == self.windows
                && f.displays == self.displays
                && f.impl_capturable_content_filter@ == with_level_range_view(
                    self.impl_capturable_content_filter@,
                    min,
                    max,
                )),
    {
        match (&min, &max) {
            (Some(min_level), Some(max_level)) => {
                if min_level.as_i32() > max_level.as_i32() {
                    let mut message = "Invalid window level range: minimum level: ".to_owned();
                    message.append(min_level.name());
                    message.append(" is greater than maximum level: ");
                    message.append(max_level.name());
                    return Err(CapturableContentError::Other(message));
                }
            },
            _ => {},
        }
        let CapturableContentFilter { windows, displays, impl_capturable_content_filter } = self;
        let MacosCapturableContentFilter { window_level_range: _, excluded_bundle_ids, excluded_window_ids } =
            impl_capturable_content_filter;
        Ok(CapturableContentFilter {
            windows,
            displays,
            impl_capturable_content_filter: MacosCapturableContentFilter {
                window_level_range: (min, max),
                excluded_bundle_ids,
                excluded_window_ids,
            },
        })
    }

    fn with_exclude_bundle_ids(self, excluded_bundle_ids: &[&str]) -> (filter: Self)
        ensures
            filter.windows == self.windows,
            filter.displays == self.displays,
            filter.impl_capturable_content_filter@ == excluding_bundle_ids_view(
                self.impl_capturable_content_filter@,
                excluded_bundle_ids@.map_values(|s: &str| s@),
            ),
    {
        let ghost old_view = self.impl_capturable_content_filter@;
        let ghost given = excluded_bundle_ids@.map_values(|s: &str| s@);
        let mut new_bundle_id_list: Vec<String> = match &self.impl_capturable_content_filter.excluded_bundle_ids {
            Some(current_bundle_ids) => copy_strings(current_bundle_ids),
            None => Vec::new(),
        };
        assert(strings_view(new_bundle_id_list@) =~= listed(old_view.excluded_bundle_ids));
        let mut i: usize = 0;
        while i < excluded_bundle_ids.len()
            invariant
                i <= excluded_bundle_ids.len(),
                given == excluded_bundle_ids@.map_values(|s: &str| s@),
                strings_view(new_bundle_id_list@) == listed(old_view.excluded_bundle_ids)
                    + given.take(i as int).map_values(|s: Seq<char>| lowercase(s)),
            decreases excluded_bundle_ids.len() - i,
        {
            let lowered = to_lowercase(excluded_bundle_ids[i]);
            let ghost prev = new_bundle_id_list@;
            let ghost lowered_view = lowered@;
            new_bundle_id_list.push(lowered);
            assert(lowered_view == lowercase(given[i as int]));
            assert(strings_view(new_bundle_id_list@) =~= strings_view(prev).push(lowered_view));
            assert(given.take(i + 1) =~= given.take(i as int).push(given[i as int]));
            assert(given.take(i + 1).map_values(|s: Seq<char>| lowercase(s)) =~= given.take(i as int).map_values(
                |s: Seq<char>| lowercase(s),
            ).push(lowercase(given[i as int])));
            assert(strings_view(new_bundle_id_list@) =~= listed(old_view.excluded_bundle_ids)
                + given.take(i + 1).map_values(|s: Seq<char>| lowercase(s)));
            i = i + 1;
        }
        assert(given.take(i as int) =~= given);
        let CapturableContentFilter { windows, displays, impl_capturable_content_filter } = self;
        let MacosCapturableContentFilter { window_level_range, excluded_bundle_ids: _, excluded_window_ids } =
            impl_capturable_content_filter;
        CapturableContentFilter {
            windows,
            displays,
            impl_capturable_content_filter: MacosCapturableContentFilter {
                window_level_range,
                excluded_bundle_ids: Some(new_bundle_id_list),
                excluded_window_ids,
            },
        }
    }

    fn with_exclude_window_ids(self, excluded_window_ids: &[u32]) -> (filter: Self)
        ensures
            filter.windows == self.windows,
            filter.displays == self.displays,
            filter.impl_capturable_content_filter@ == excluding_window_ids_view(
                self.impl_capturable_content_filter@,
                excluded_window_ids@,
            ),
    {
        let ghost old_view = self.impl_capturable_content_filter@;
        let mut new_excluded_window_id_list: Vec<u32> = match &self.impl_capturable_content_filter.excluded_window_ids {
            Some(current_excluded_window_ids) => copy_ids(current_excluded_window_ids),
            None => Vec::new(),
        };
        assert(new_excluded_window_id_list@ =~= listed(old_view.excluded_window_ids));
        let mut i: usize = 0;
        while i < excluded_window_ids.len()
            invariant
                i <= excluded_window_ids.len(),
                new_excluded_window_id_list@ == listed(old_view.excluded_window_ids)
                    + excluded_window_ids@.take(i as int),
            decreases excluded_window_ids.len() - i,
        {
            new_excluded_window_id_list.push(excluded_window_ids[i]);
            assert(excluded_window_ids@.take(i + 1) =~= excluded_window_ids@.take(i as int).push(
                excluded_window_ids@[i as int],
            ));
            assert(new_excluded_window_id_list@ =~= listed(old_view.excluded_window_ids)
                + excluded_window_ids@.take(i + 1));
            i = i + 1;
        }
        assert(excluded_window_ids@.take(i as int) =~= excluded_window_ids@);
        let CapturableContentFilter { windows, displays, impl_capturable_content_filter } = self;
        let MacosCapturableContentFilter { window_level_range, excluded_bundle_ids, excluded_window_ids: _ } =
            impl_capturable_content_filter;
        CapturableContentFilter {
            windows,
            displays,
            impl_capturable_content_filter: MacosCapturableContentFilter {
                window_level_range,
                excluded_bundle_ids,
                excluded_window_ids: Some(new_excluded_window_id_list),
            },
        }
    }
}

} // verus!
