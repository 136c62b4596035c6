//! A listing of capturable content, built from the window server's answer.
use vstd::prelude::*;
use crate::error::CapturableContentError;
use crate::filter::{owner_bundle_id, window_allowed, CapturableContentFilter, FilterView, MacosCapturableContentFilter, unrestricted_view};
use crate::level::{level_of_description, WindowDescription, WindowLevels};
use crate::text::{decimal, isize_to_decimal};
use crate::window::{CapturableWindow, MacosCapturableDisplay, MacosCapturableWindow};

verus! {

/// The error code with which the window server refuses a listing because screen capture is not
/// permitted.
pub const SC_PERMISSION_DENIED_ERROR_CODE: isize = -3801;

/// A window as the window server reports it, with its description, from which its level is
/// read when a filter restricts levels.
#[derive(Debug)]
pub struct ReportedWindow {
    pub window: MacosCapturableWindow,
    pub description: Result<WindowDescription, ()>,
}

/// The windows and displays that the window server reports as shareable, and the thresholds of
/// its window levels.
#[derive(Debug)]
pub struct ShareableContentSnapshot {
    pub windows: Vec<ReportedWindow>,
    pub levels: WindowLevels,
    pub displays: Vec<MacosCapturableDisplay>,
}

/// Whether a filter keeps a reported window.
pub open spec fn reported_allowed(f: FilterView, levels: WindowLevels, reported: ReportedWindow) -> bool {
    window_allowed(f, reported.window.window_id, owner_bundle_id(reported.window), level_of_description(levels, reported.description))
}

/// The reported windows, in order, that the filter keeps (`keep` true) or rejects (`keep` false).
pub open spec fn sorted_windows(f: FilterView, levels: WindowLevels, ws: Seq<ReportedWindow>, keep: bool) -> Seq<MacosCapturableWindow>
    decreases ws.len(),
{
    if ws.len() == 0 {
        Seq::empty()
    } else {
        let rest = sorted_windows(f, levels, ws.drop_last(), keep);
        if reported_allowed(f, levels, ws.last()) == keep {
            rest.push(ws.last().window)
        } else {
            rest
        }
    }
}

/// The windows of a list of reported windows.
pub open spec fn windows_of(ws: Seq<ReportedWindow>) -> Seq<MacosCapturableWindow> {
    ws.map_values(|r: ReportedWindow| r.window)
}

/// Whether every reported window has an owning application when the filter needs one (it does
/// when it excludes bundle ids).
pub open spec fn owners_known(f: MacosCapturableContentFilter, ws: Seq<ReportedWindow>) -> bool {
    f.excluded_bundle_ids.is_some() ==> forall|i: int| 0 <= i < ws.len() ==> (#[trigger] ws[i]).window.owning_app.is_some()
}

/// Whether a reply can be listed under the filter: a delivered listing must give every window
/// an owning application when the filter excludes bundle ids.
pub open spec fn reply_listable(filter: CapturableContentFilter, reply: ShareableContentReply) -> bool {
    match reply {
        ShareableContentReply::Delivered(Ok(snapshot)) => owners_known(filter.impl_capturable_content_filter, snapshot.windows@),
        _ => true,
    }
}

/// Law: the kept and the rejected windows share out the reported windows: together they are as
/// many as the reported ones, and each reported window lands in exactly one of the two lists.
pub proof fn lemma_listing_partitions(f: FilterView, levels: WindowLevels, ws: Seq<ReportedWindow>)
    ensures
        sorted_windows(f, levels, ws, true).len() + sorted_windows(f, levels, ws, false).len() == ws.len(),
    decreases ws.len(),
{
    if ws.len() > 0 {
        lemma_listing_partitions(f, levels, ws.drop_last());
    }
}

/// Law: the kept windows are exactly the reported windows that the filter keeps, and the
/// rejected windows exactly those that it rejects, each list in the order of the reply:
/// filtering the reply by the filter's verdict and taking the windows gives each list.
pub proof fn lemma_listing_is_filtered_reply(f: FilterView, levels: WindowLevels, ws: Seq<ReportedWindow>)
    ensures
        sorted_windows(f, levels, ws, true) == windows_of(
            ws.filter(|r: ReportedWindow| window_allowed(f, r.window.window_id, owner_bundle_id(r.window), level_of_description(levels, r.description))),
        ),
        sorted_windows(f, levels, ws, false) == windows_of(
            ws.filter(|r: ReportedWindow| !window_allowed(f, r.window.window_id, owner_bundle_id(r.window), level_of_description(levels, r.description))),
        ),
    decreases ws.len(),
{
    reveal(Seq::filter);
    let keep = |r: ReportedWindow| window_allowed(f, r.window.window_id, owner_bundle_id(r.window), level_of_description(levels, r.description));
    let drop = |r: ReportedWindow| !window_allowed(f, r.window.window_id, owner_bundle_id(r.window), level_of_description(levels, r.description));
    if ws.len() > 0 {
        lemma_listing_is_filtered_reply(f, levels, ws.drop_last());
        let kept_rest = ws.drop_last().filter(keep);
        let dropped_rest = ws.drop_last().filter(drop);
        assert(windows_of(kept_rest.push(ws.last())) =~= windows_of(kept_rest).push(ws.last().window));
        assert(windows_of(dropped_rest.push(ws.last())) =~= windows_of(dropped_rest).push(ws.last().window));
    } else {
        assert(windows_of(ws) =~= Seq::<MacosCapturableWindow>::empty());
    }
}

/// Law: a filter that restricts nothing keeps every reported window, in order, and rejects none.
pub proof fn lemma_unrestricted_listing_keeps_all(levels: WindowLevels, ws: Seq<ReportedWindow>)
    ensures
        sorted_windows(unrestricted_view(), levels, ws, true) == windows_of(ws),
        sorted_windows(unrestricted_view(), levels, ws, false) == Seq::<MacosCapturableWindow>::empty(),
    decreases ws.len(),
{
    if ws.len() > 0 {
        lemma_unrestricted_listing_keeps_all(levels, ws.drop_last());
        assert(windows_of(ws) =~= windows_of(ws.drop_last()).push(ws.last().window));
    }
}

/// What came back from asking the window server for its shareable content.
#[derive(Debug)]
pub enum ShareableContentReply {
    /// The completion handler delivered an answer: the content, or the code of the error
    /// that the window server raised.
    Delivered(Result<ShareableContentSnapshot, isize>),
    /// The completion handler was dropped without delivering; the text describes why.
    Dropped(String),
}

/// The message of the error for a reply that did not deliver content.
pub open spec fn reply_error_message(reply: ShareableContentReply) -> Seq<char> {
    match reply {
        ShareableContentReply::Delivered(Err(code)) => if code == SC_PERMISSION_DENIED_ERROR_CODE {
            "SCShareableContent error: Permission to screen capture was denied"@
        } else {
            "SCShareableContent returned error code: "@ + decimal(code as int)
        },
        ShareableContentReply::Dropped(reason) => "Failed to receive SCSharableContent result from completion handler future: "@
            + reason@,
        ShareableContentReply::Delivered(Ok(_)) => Seq::empty(),
    }
}

/// The capturable content of the system: its windows, the windows to exclude from a capture,
/// and its displays.
#[derive(Debug)]
pub struct MacosCapturableContent {
    pub windows: Vec<MacosCapturableWindow>,
    pub excluding_windows: Vec<MacosCapturableWindow>,
    pub displays: Vec<MacosCapturableDisplay>,
}

/// Shares out the reported windows between those the filter keeps and those it rejects.
fn sort_windows(
    filter: &MacosCapturableContentFilter,
    levels: &WindowLevels,
    reported: &Vec<ReportedWindow>,
) -> (sorted: (Vec<MacosCapturableWindow>, Vec<MacosCapturableWindow>))
    requires
        owners_known(*filter, reported@),
    ensures
        sorted.0@ == sorted_windows(filter@, *levels, reported@, true),
        sorted.1@ == sorted_windows(filter@, *levels, reported@, false),
{
    let mut kept: Vec<MacosCapturableWindow> = Vec::new();
    let mut rejected: Vec<MacosCapturableWindow> = Vec::new();
    let mut i: usize = 0;
    while i < reported.len()
        invariant
            i <= reported.len(),
            owners_known(*filter, reported@),
            kept@ == sorted_windows(filter@, *levels, reported@.take(i as int), true),
            rejected@ == sorted_windows(filter@, *levels, reported@.take(i as int), false),
        decreases reported.len() - i,
    {
        let entry = &reported[i];
        proof {
            if filter.excluded_bundle_ids.is_some() {
                assert(reported@[i as int].window.owning_app.is_some());
            }
        }
        let keep = filter.filter_scwindow(&entry.window, levels, entry.description);
        let ghost prefix = reported@.take(i + 1);
        assert(prefix.drop_last() =~= reported@.take(i as int));
        assert(prefix.last() == reported@[i as int]);
        if keep {
            kept.push(entry.window.clone());
        } else {
            rejected.push(entry.window.clone());
        }
        i = i + 1;
    }
    assert(reported@.take(i as int) =~= reported@);
    (kept, rejected)
}

/// The displays that the filter keeps.
fn kept_displays(filter: &MacosCapturableContentFilter, displays: &Vec<MacosCapturableDisplay>) -> (kept: Vec<MacosCapturableDisplay>)
    ensures
        kept@ == displays@,
{
    let mut kept: Vec<MacosCapturableDisplay> = Vec::new();
    let mut i: usize = 0;
    while i < displays.len()
        invariant
            i <= displays.len(),
            kept@ == displays@.take(i as int),
        decreases displays.len() - i,
    {
        if filter.filter_scdisplay(&displays[i]) {
            kept.push(displays[i]);
        }
        assert(displays@.take(i + 1) =~= displays@.take(i as int).push(displays@[i as int]));
        i = i + 1;
    }
    assert(displays@.take(i as int) =~= displays@);
    kept
}

impl MacosCapturableContent {
    /// Builds the listing from the window server's reply: the windows that the filter keeps,
    /// the windows that it rejects (to exclude from a capture), both in the reply's order, and
    /// the displays that it keeps. A reply without content becomes an error whose message says
    /// why.
    pub fn new(filter: &CapturableContentFilter, reply: ShareableContentReply) -> (content: Result<Self, CapturableContentError>)
        requires
            reply_listable(*filter, reply),
        ensures
            match reply {
                ShareableContentReply::Delivered(Ok(snapshot)) => content matches Ok(c)
                    && c.windows@ == sorted_windows(filter.impl_capturable_content_filter@, snapshot.levels, snapshot.windows@, true)
                    && c.excluding_windows@ == sorted_windows(filter.impl_capturable_content_filter@, snapshot.levels, snapshot.windows@, false)
                    && c.displays@ == snapshot.displays@,
                _ => content matches Err(e) && e.message_view() == reply_error_message(reply),
            },
    {
        match reply {
            ShareableContentReply::Delivered(Ok(snapshot)) => {
                let macos_filter = &filter.impl_capturable_content_filter;
                let (windows, excluding_windows) = sort_windows(macos_filter, &snapshot.levels, &snapshot.windows);
                let displays = kept_displays(macos_filter, &snapshot.displays);
                Ok(MacosCapturableContent { windows, excluding_windows, displays })
            },
            ShareableContentReply::Delivered(Err(code)) => {
                if code == SC_PERMISSION_DENIED_ERROR_CODE {
                    return Err(
                        CapturableContentError::Other(
                            "SCShareableContent error: Permission to screen capture was denied".to_owned(),
                        ),
                    );
                }
                let mut message = "SCShareableContent returned error code: ".to_owned();
                let digits = isize_to_decimal(code);
                message.append(digits.as_str());
                Err(CapturableContentError::Other(message))
            },
            ShareableContentReply::Dropped(reason) => {
                let mut message = "Failed to receive SCSharableContent result from completion handler future: ".to_owned();
                message.append(reason.as_str());
                Err(CapturableContentError::Other(message))
            },
        }
    }
}

/// The capturable content of the system.
#[derive(Debug)]
pub struct CapturableContent {
    pub impl_capturable_content: MacosCapturableContent,
}

impl CapturableContent {
    /// Builds the listing from the window server's reply to a request made with `filter`,
    /// keeping what the filter keeps (see `MacosCapturableContent::new`).
    pub fn new(filter: &CapturableContentFilter, reply: ShareableContentReply) -> (content: Result<Self, CapturableContentError>)
        requires
            reply_listable(*filter, reply),
        ensures
            match reply {
                ShareableContentReply::Delivered(Ok(snapshot)) => content matches Ok(c)
                    && c.impl_capturable_content.windows@ == sorted_windows(filter.impl_capturable_content_filter@, snapshot.levels, snapshot.windows@, true)
                    && c.impl_capturable_content.excluding_windows@ == sorted_windows(filter.impl_capturable_content_filter@, snapshot.levels, snapshot.windows@, false)
                    && c.impl_capturable_content.displays@ == snapshot.displays@,
                _ => content matches Err(e) && e.message_view() == reply_error_message(reply),
            },
    {
        match MacosCapturableContent::new(filter, reply) {
            Ok(c) => Ok(CapturableContent { impl_capturable_content: c }),
            Err(e) => Err(e),
        }
    }

    /// The capturable windows, in the order the window server reported them.
    pub fn windows(&self) -> (windows: Vec<CapturableWindow>)
        ensures
            windows.len() == self.impl_capturable_content.windows.len(),
            forall|i: int| 0 <= i < windows.len() ==> (#[trigger] windows@[i]).impl_capturable_window
                == self.impl_capturable_content.windows@[i],
    {
        let mut windows: Vec<CapturableWindow> = Vec::new();
        let mut i: usize = 0;
        while i < self.impl_capturable_content.windows.len()
            invariant
                i <= self.impl_capturable_content.windows.len(),
                windows.len() == i,
                forall|k: int| 0 <= k < i ==> (#[trigger] windows@[k]).impl_capturable_window
                    == self.impl_capturable_content.windows@[k],
            decreases self.impl_capturable_content.windows.len() - i,
        {
            windows.push(CapturableWindow { impl_capturable_window: self.impl_capturable_content.windows[i].clone() });
            i = i + 1;
        }
        windows
    }

    /// The capturable displays, in the order the window server reported them.
    pub fn displays(&self) -> (displays: Vec<MacosCapturableDisplay>)
        ensures
            displays@ == self.impl_capturable_content.displays@,
    {
        let mut displays: Vec<MacosCapturableDisplay> = Vec::new();
        let mut i: usize = 0;
        while i < self.impl_capturable_content.displays.len()
            invariant
                i <= self.impl_capturable_content.displays.len(),
                displays@ == self.impl_capturable_content.displays@.take(i as int),
            decreases self.impl_capturable_content.displays.len() - i,
        {
            displays.push(self.impl_capturable_content.displays[i]);
            assert(self.impl_capturable_content.displays@.take(i + 1)
                =~= self.impl_capturable_content.displays@.take(i as int).push(self.impl_capturable_content.displays@[i as int]));
            i = i + 1;
        }
        assert(self.impl_capturable_content.displays@.take(i as int) =~= self.impl_capturable_content.displays@);
        displays
    }
}

} // verus!
