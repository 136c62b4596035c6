//! Capturable windows, displays and applications, held as the plain values that the window
//! server reports for them.
use vstd::prelude::*;
use vstd::std_specs::cmp::PartialEqSpec;
use crate::content::CapturableContent;
use crate::error::CapturableContentError;
use crate::level::{
    get_window_layer, get_window_level, level_for_layer, MacosWindowLevel, WindowDescription,
    WindowLevels,
};
use crate::text::{decimal, u32_to_decimal};

verus! {

/// Gives `<u32 as Hash>::hash` a contract so that verified code can call it. Nothing is
/// claimed of what it feeds to the hasher.
pub assume_specification<H: core::hash::Hasher>[ <u32 as core::hash::Hash>::hash::<H> ](data: &u32, state: &mut H);

/// A running application that owns capturable windows.
#[derive(Debug)]
pub struct MacosCapturableApplication {
    pub bundle_id: String,
    pub app_name: String,
    pub process_id: i32,
}

impl Clone for MacosCapturableApplication {
    fn clone(&self) -> (copy: Self)
        ensures
            copy == *self,
    {
        MacosCapturableApplication {
            bundle_id: self.bundle_id.clone(),
            app_name: self.app_name.clone(),
            process_id: self.process_id,
        }
    }
}

impl MacosCapturableApplication {
    /// The bundle identifier of the application.
    pub fn identifier(&self) -> (id: String)
        ensures
            id == self.bundle_id,
    {
        self.bundle_id.clone()
    }

    /// The name of the application.
    pub fn name(&self) -> (name: String)
        ensures
            name == self.app_name,
    {
        self.app_name.clone()
    }

    /// The process id of the application.
    pub fn pid(&self) -> (pid: i32)
        ensures
            pid == self.process_id,
    {
        self.process_id
    }
}

/// A capturable window. `window_id` is the window's id as the window server reports it
/// (its `CGWindowID`).
#[derive(Debug)]
pub struct MacosCapturableWindow {
    pub window_id: u32,
    pub title: Option<String>,
    pub on_screen: bool,
    pub owning_app: Option<MacosCapturableApplication>,
}

impl Clone for MacosCapturableWindow {
    fn clone(&self) -> (copy: Self)
        ensures
            copy == *self,
    {
        let title = match &self.title {
            Some(t) => Some(t.clone()),
            None => None,
        };
        let owning_app = match &self.owning_app {
            Some(app) => Some(app.clone()),
            None => None,
        };
        MacosCapturableWindow {
            window_id: self.window_id,
            title,
            on_screen: self.on_screen,
            owning_app,
        }
    }
}

/// Two windows are the same window when their ids are equal.
impl PartialEq for MacosCapturableWindow {
    fn eq(&self, other: &Self) -> (same: bool) {
        self.window_id == other.window_id
    }
}

impl vstd::std_specs::cmp::PartialEqSpecImpl for MacosCapturableWindow {
    open spec fn obeys_eq_spec() -> bool {
        true
    }

    open spec fn eq_spec(&self, other: &Self) -> bool {
        self.window_id == other.window_id
    }
}

impl Eq for MacosCapturableWindow {}

/// A window hashes as its id, so that equal windows hash alike.
impl core::hash::Hash for MacosCapturableWindow {
    fn hash<H: core::hash::Hasher>(&self, state: &mut H) {
        self.window_id.hash(state);
    }
}

impl MacosCapturableWindow {
    /// Builds a window from what the window server reports of it: its id (`CGWindowID`),
    /// its title, whether it is on screen, and the application that owns it.
    pub fn from_impl(
        cg_window_id: u32,
        title: Option<String>,
        on_screen: bool,
        owning_app: Option<MacosCapturableApplication>,
    ) -> (window: Self)
        ensures
            window.window_id == cg_window_id,
            window.title == title,
            window.on_screen == on_screen,
            window.owning_app == owning_app,
    {
        MacosCapturableWindow { window_id: cg_window_id, title, on_screen, owning_app }
    }

    /// The id of this window (its `CGWindowID`).
    pub fn id(&self) -> (id: u32)
        ensures
            id == self.window_id,
    {
        self.window_id
    }

    /// The title of this window, or "Unknown" when it has none.
    pub fn title(&self) -> (title: String)
        ensures
            title@ == (match self.title {
                Some(t) => t@,
                None => "Unknown"@,
            }),
    {
        match &self.title {
            Some(t) => t.clone(),
            None => "Unknown".to_owned(),
        }
    }

    /// The application that owns this window.
    pub fn application(&self) -> (app: MacosCapturableApplication)
        requires
            self.owning_app.is_some(),
        ensures
            app == self.owning_app.unwrap(),
    {
        self.owning_app.as_ref().unwrap().clone()
    }

    /// Whether this window is on screen.
    pub fn is_visible(&self) -> (visible: bool)
        ensures
            visible == self.on_screen,
    {
        self.on_screen
    }
}

/// A capturable display, identified by its display id.
#[derive(Copy, Clone, Debug, Hash)]
pub struct MacosCapturableDisplay {
    pub display: u32,
}

/// Two displays are the same display when their ids are equal.
impl PartialEq for MacosCapturableDisplay {
    fn eq(&self, other: &Self) -> (same: bool) {
        self.display == other.display
    }
}

impl vstd::std_specs::cmp::PartialEqSpecImpl for MacosCapturableDisplay {
    open spec fn obeys_eq_spec() -> bool {
        true
    }

    open spec fn eq_spec(&self, other: &Self) -> bool {
        self.display == other.display
    }
}

impl Eq for MacosCapturableDisplay {}

impl MacosCapturableDisplay {
    /// Builds a display from the id that the window server reports for it.
    pub fn from_impl(display_id: u32) -> (display: Self)
        ensures
            display.display == display_id,
    {
        MacosCapturableDisplay { display: display_id }
    }

    /// The id of this display.
    pub open spec fn id_spec(&self) -> u32 {
        self.display
    }

    /// The id of this display.
    pub fn id(&self) -> (id: u32)
        ensures
            id == self.display,
    {
        self.display
    }
}

/// Law: two windows are equal exactly when their ids are, whatever their other fields, and two
/// windows built from the same window server id are equal; two displays are equal exactly when
/// their ids are.
pub proof fn lemma_equality_is_by_id(
    a: MacosCapturableWindow,
    b: MacosCapturableWindow,
    c: MacosCapturableDisplay,
    d: MacosCapturableDisplay,
)
    ensures
        a.eq_spec(&b) <==> a.window_id == b.window_id,
        a.eq_spec(&a),
        a.eq_spec(&b) <==> b.eq_spec(&a),
        c.eq_spec(&d) <==> c.id_spec() == d.id_spec(),
{
}

/// A window that can be captured.
#[derive(Debug)]
pub struct CapturableWindow {
    pub impl_capturable_window: MacosCapturableWindow,
}

impl Clone for CapturableWindow {
    fn clone(&self) -> (copy: Self)
        ensures
            copy == *self,
    {
        CapturableWindow { impl_capturable_window: self.impl_capturable_window.clone() }
    }
}

/// A capturable window with mac-os specific features.
///
/// The window server's answers that these methods read (the thresholds of the window levels and
/// the description of the window) are handed in by the caller.
pub trait MacosCapturableWindowExt: Sized {
    /// Get the window layer of this window
    fn get_window_layer(&self, description: Result<WindowDescription, ()>) -> Result<i32, CapturableContentError>;

    /// Get the window level of this window
    fn get_window_level(
        &self,
        levels: &WindowLevels,
        description: Result<WindowDescription, ()>,
    ) -> Result<MacosWindowLevel, CapturableContentError>;

    /// Get the native window id for this capturable window.
    fn get_window_id(&self) -> u32;

    /// Try and convert the given window id to a capturable window of `content`.
    fn from_window_id(
        window_id: u32,
        content: Result<CapturableContent, CapturableContentError>,
    ) -> Result<Self, CapturableContentError>;
}

/// The index of the first window of `windows` whose id is `window_id`, if there is one.
fn position_of_window(windows: &Vec<CapturableWindow>, window_id: u32) -> (position: Option<usize>)
    ensures
        match position {
            Some(i) => i < windows.len() && windows@[i as int].impl_capturable_window.window_id == window_id
                && forall|j: int| 0 <= j < i ==> (#[trigger] windows@[j]).impl_capturable_window.window_id != window_id,
            None => forall|j: int| 0 <= j < windows.len() ==> (#[trigger] windows@[j]).impl_capturable_window.window_id != window_id,
        },
{
    let mut i: usize = 0;
    while i < windows.len()
        invariant
            i <= windows.len(),
            forall|j: int| 0 <= j < i ==> (#[trigger] windows@[j]).impl_capturable_window.window_id != window_id,
        decreases windows.len() - i,
    {
        if windows[i].get_window_id() == window_id {
            return Some(i);
        }
        i = i + 1;
    }
    None
}

/// The message of the error when no window has the requested id.
pub open spec fn no_window_message(window_id: u32) -> Seq<char> {
    "No capturable window with id: "@ + decimal(window_id as int) + " found"@
}

impl MacosCapturableWindowExt for CapturableWindow {
    fn get_window_layer(&self, description: Result<WindowDescription, ()>) -> (layer: Result<i32, CapturableContentError>)
        ensures
            match description {
                Ok(d) => layer == Ok::<i32, CapturableContentError>(d.window_layer),
                Err(_) => layer matches Err(e) && e.message_view() == "Failed to retreive window layer"@,
            },
    {
        match get_window_layer(description) {
            Ok(layer) => Ok(layer),
            Err(_) => Err(CapturableContentError::Other("Failed to retreive window layer".to_owned())),
        }
    }

    fn get_window_level(
        &self,
        levels: &WindowLevels,
        description: Result<WindowDescription, ()>,
    ) -> (level: Result<MacosWindowLevel, CapturableContentError>)
        ensures
            match description {
                Ok(d) => level == Ok::<MacosWindowLevel, CapturableContentError>(
                    level_for_layer(*levels, d.window_layer as int),
                ),
                Err(_) => level matches Err(e) && e.message_view() == "Failed to retreive window level"@,
            },
    {
        match get_window_level(levels, description) {
            Ok(level) => Ok(level),
            Err(_) => Err(CapturableContentError::Other("Failed to retreive window level".to_owned())),
        }
    }

    fn get_window_id(&self) -> (id: u32)
        ensures
            id == self.impl_capturable_window.window_id,
    {
        self.impl_capturable_window.window_id
    }

    fn from_window_id(
        window_id: u32,
        content: Result<CapturableContent, CapturableContentError>,
    ) -> (found: Result<Self, CapturableContentError>)
        ensures
            match content {
                Err(e) => found == Err::<Self, CapturableContentError>(e),
                Ok(c) => {
                    let ws = c.impl_capturable_content.windows@;
                    match found {
                        Ok(w) => exists|i: int|
                            0 <= i < ws.len() && (#[trigger] ws[i]).window_id == window_id
                                && (forall|j: int| 0 <= j < i ==> ws[j].window_id != window_id)
                                && w.impl_capturable_window == ws[i],
                        Err(e) => (forall|i: int| 0 <= i < ws.len() ==> (#[trigger] ws[i]).window_id != window_id)
                            && e.message_view() == no_window_message(window_id),
                    }
                },
            },
    {
        let listing = match content {
            Ok(c) => c,
            Err(e) => return Err(e),
        };
        let windows = listing.windows();
        match position_of_window(&windows, window_id) {
            Some(i) => {
                let found = windows[i].clone();
                assert(windows@[i as int].impl_capturable_window == listing.impl_capturable_content.windows@[i as int]);
                assert forall|j: int| 0 <= j < i implies listing.impl_capturable_content.windows@[j].window_id != window_id by {
                    assert(windows@[j].impl_capturable_window == listing.impl_capturable_content.windows@[j]);
                }
                assert(listing.impl_capturable_content.windows@[i as int].window_id == window_id);
                return Ok(found);
            },
            None => {
                assert forall|j: int| 0 <= j < listing.impl_capturable_content.windows@.len() implies
                    (#[trigger] listing.impl_capturable_content.windows@[j]).window_id != window_id by {
                    assert(windows@[j].impl_capturable_window == listing.impl_capturable_content.windows@[j]);
                }
            },
        }
        let mut message = "No capturable window with id: ".to_owned();
        let digits = u32_to_decimal(window_id);
        message.append(digits.as_str());
        message.append(" found");
        Err(CapturableContentError::Other(message))
    }
}

} // verus!
