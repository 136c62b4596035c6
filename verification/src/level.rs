//! Window levels: the named bands of the macOS window stack, and the
//! classification of a raw window layer into one of them.
use vstd::prelude::*;

verus! {

/// Represents the "window level" of a native Mac OS window. Windows within the same level are
/// ordered above or below levels that are above below or above this level respectively.
#[derive(Copy, Clone, Debug, PartialEq, Eq, Structural, PartialOrd, Ord, Hash)]
pub enum MacosWindowLevel {
    BelowDesktop,
    Desktop,
    DesktopIcon,
    Backstop,
    Normal,
    Floating,
    TornOffMenu,
    ModalPanel,
    Utility,
    Dock,
    MainMenu,
    Status,
    PopupMenu,
    Overlay,
    Help,
    Dragging,
    ScreenSaver,
    AssistiveTechHigh,
    Cursor,
}

impl MacosWindowLevel {
    /// The numeric value of a level: its position in the declaration order, which is also the
    /// order of the derived `Ord`. Levels are declared from the bottom of the window stack to the
    /// top, in the order of the rungs of `level_ladder`.
    pub open spec fn rank(self) -> int {
        match self {
            MacosWindowLevel::BelowDesktop => 0,
            MacosWindowLevel::Desktop => 1,
            MacosWindowLevel::DesktopIcon => 2,
            MacosWindowLevel::Backstop => 3,
            MacosWindowLevel::Normal => 4,
            MacosWindowLevel::Floating => 5,
            MacosWindowLevel::TornOffMenu => 6,
            MacosWindowLevel::ModalPanel => 7,
            MacosWindowLevel::Utility => 8,
            MacosWindowLevel::Dock => 9,
            MacosWindowLevel::MainMenu => 10,
            MacosWindowLevel::Status => 11,
            MacosWindowLevel::PopupMenu => 12,
            MacosWindowLevel::Overlay => 13,
            MacosWindowLevel::Help => 14,
            MacosWindowLevel::Dragging => 15,
            MacosWindowLevel::ScreenSaver => 16,
            MacosWindowLevel::AssistiveTechHigh => 17,
            MacosWindowLevel::Cursor => 18,
        }
    }

    /// The name of the variant, as `{:?}` prints it.
    pub open spec fn variant_name(self) -> Seq<char> {
        match self {
            MacosWindowLevel::BelowDesktop => "BelowDesktop"@,
            MacosWindowLevel::Desktop => "Desktop"@,
            MacosWindowLevel::DesktopIcon => "DesktopIcon"@,
            MacosWindowLevel::Backstop => "Backstop"@,
            MacosWindowLevel::Normal => "Normal"@,
            MacosWindowLevel::Floating => "Floating"@,
            MacosWindowLevel::TornOffMenu => "TornOffMenu"@,
            MacosWindowLevel::Dock => "Dock"@,
            MacosWindowLevel::MainMenu => "MainMenu"@,
            MacosWindowLevel::Status => "Status"@,
            MacosWindowLevel::ModalPanel => "ModalPanel"@,
            MacosWindowLevel::PopupMenu => "PopupMenu"@,
            MacosWindowLevel::Dragging => "Dragging"@,
            MacosWindowLevel::ScreenSaver => "ScreenSaver"@,
            MacosWindowLevel::Overlay => "Overlay"@,
            MacosWindowLevel::Help => "Help"@,
            MacosWindowLevel::Utility => "Utility"@,
            MacosWindowLevel::Cursor => "Cursor"@,
            MacosWindowLevel::AssistiveTechHigh => "AssistiveTechHigh"@,
        }
    }

    /// The numeric value of this level (`BelowDesktop` is 0, `Cursor` is 18).
    pub fn as_i32(&self) -> (value: i32)
        ensures
            value == self.rank(),
    {
        match self {
            MacosWindowLevel::BelowDesktop => 0,
            MacosWindowLevel::Desktop => 1,
            MacosWindowLevel::DesktopIcon => 2,
            MacosWindowLevel::Backstop => 3,
            MacosWindowLevel::Normal => 4,
            MacosWindowLevel::Floating => 5,
            MacosWindowLevel::TornOffMenu => 6,
            MacosWindowLevel::ModalPanel => 7,
            MacosWindowLevel::Utility => 8,
            MacosWindowLevel::Dock => 9,
            MacosWindowLevel::MainMenu => 10,
            MacosWindowLevel::Status => 11,
            MacosWindowLevel::PopupMenu => 12,
            MacosWindowLevel::Overlay => 13,
            MacosWindowLevel::Help => 14,
            MacosWindowLevel::Dragging => 15,
            MacosWindowLevel::ScreenSaver => 16,
            MacosWindowLevel::AssistiveTechHigh => 17,
            MacosWindowLevel::Cursor => 18,
        }
    }

    /// The name of the variant, as `{:?}` prints it.
    pub fn name(&self) -> (name: &'static str)
        ensures
            name@ == self.variant_name(),
    {
        match self {
            MacosWindowLevel::BelowDesktop => "BelowDesktop",
            MacosWindowLevel::Desktop => "Desktop",
            MacosWindowLevel::DesktopIcon => "DesktopIcon",
            MacosWindowLevel::Backstop => "Backstop",
            MacosWindowLevel::Normal => "Normal",
            MacosWindowLevel::Floating => "Floating",
            MacosWindowLevel::TornOffMenu => "TornOffMenu",
            MacosWindowLevel::Dock => "Dock",
            MacosWindowLevel::MainMenu => "MainMenu",
            MacosWindowLevel::Status => "Status",
            MacosWindowLevel::ModalPanel => "ModalPanel",
            MacosWindowLevel::PopupMenu => "PopupMenu",
            MacosWindowLevel::Dragging => "Dragging",
            MacosWindowLevel::ScreenSaver => "ScreenSaver",
            MacosWindowLevel::Overlay => "Overlay",
            MacosWindowLevel::Help => "Help",
            MacosWindowLevel::Utility => "Utility",
            MacosWindowLevel::Cursor => "Cursor",
            MacosWindowLevel::AssistiveTechHigh => "AssistiveTechHigh",
        }
    }
}

/// The layer value that the window server assigns to each named window level key
/// (what `CGWindowLevelForKey` answers for each key).
#[derive(Copy, Clone, Debug, PartialEq, Eq, Structural)]
pub struct WindowLevels {
    pub desktop: i32,
    pub desktop_icon: i32,
    pub backstop: i32,
    pub normal: i32,
    pub floating: i32,
    pub torn_off_menu: i32,
    pub modal_panel: i32,
    pub utility: i32,
    pub dock: i32,
    pub main_menu: i32,
    pub status: i32,
    pub pop_up_menu: i32,
    pub overlay: i32,
    pub help: i32,
    pub dragging: i32,
    pub screen_saver: i32,
    pub assistive_tech_high: i32,
    pub cursor: i32,
}

/// What the window server reports about one window, as far as this library reads it.
#[derive(Copy, Clone, Debug, PartialEq, Eq, Structural)]
pub struct WindowDescription {
    pub window_layer: i32,
}

/// The ladder used to classify a layer: each rung is a threshold and the level given to a
/// layer strictly below that threshold (and not below any earlier rung's threshold).
pub open spec fn level_ladder(levels: WindowLevels) -> Seq<(i32, MacosWindowLevel)> {
    seq![
        (levels.desktop, MacosWindowLevel::BelowDesktop),
        (levels.desktop_icon, MacosWindowLevel::Desktop),
        (levels.backstop, MacosWindowLevel::DesktopIcon),
        (levels.normal, MacosWindowLevel::Backstop),
        (levels.floating, MacosWindowLevel::Normal),
        (levels.torn_off_menu, MacosWindowLevel::Floating),
        (levels.modal_panel, MacosWindowLevel::TornOffMenu),
        (levels.utility, MacosWindowLevel::ModalPanel),
        (levels.dock, MacosWindowLevel::Utility),
        (levels.main_menu, MacosWindowLevel::Dock),
        (levels.status, MacosWindowLevel::MainMenu),
        (levels.pop_up_menu, MacosWindowLevel::Status),
        (levels.overlay, MacosWindowLevel::PopupMenu),
        (levels.help, MacosWindowLevel::Overlay),
        (levels.dragging, MacosWindowLevel::Help),
        (levels.screen_saver, MacosWindowLevel::Dragging),
        (levels.assistive_tech_high, MacosWindowLevel::ScreenSaver),
        (levels.cursor, MacosWindowLevel::AssistiveTechHigh),
    ]
}

/// The index of the first rung whose threshold lies strictly above `layer`
/// (the length of the ladder when there is none).
pub open spec fn rung_position(ladder: Seq<(i32, MacosWindowLevel)>, layer: int) -> nat
    decreases ladder.len(),
{
    if ladder.len() == 0 {
        0
    } else if layer < ladder[0].0 {
        0
    } else {
        1 + rung_position(ladder.drop_first(), layer)
    }
}

/// The level of the first rung above `layer`; `Cursor` when the layer reaches every threshold.
pub open spec fn level_on_ladder(ladder: Seq<(i32, MacosWindowLevel)>, layer: int) -> MacosWindowLevel {
    let p = rung_position(ladder, layer);
    if p < ladder.len() {
        ladder[p as int].1
    } else {
        MacosWindowLevel::Cursor
    }
}

/// The level that a window of layer `layer` belongs to, given the window server's thresholds.
pub open spec fn level_for_layer(levels: WindowLevels, layer: int) -> MacosWindowLevel {
    level_on_ladder(level_ladder(levels), layer)
}

/// Law: the first rung above a layer brackets it. Every earlier threshold is at or below the
/// layer, and the rung's own threshold (if there is a rung) lies strictly above it.
pub proof fn lemma_rung_position_brackets(ladder: Seq<(i32, MacosWindowLevel)>, layer: int)
    ensures
        rung_position(ladder, layer) <= ladder.len(),
        forall|j: int| 0 <= j < rung_position(ladder, layer) ==> #[trigger] ladder[j].0 <= layer,
        rung_position(ladder, layer) < ladder.len() ==> layer < ladder[rung_position(ladder, layer) as int].0,
    decreases ladder.len(),
{
    if ladder.len() > 0 && layer >= ladder[0].0 {
        let rest = ladder.drop_first();
        lemma_rung_position_brackets(rest, layer);
        assert forall|j: int| 0 <= j < rung_position(ladder, layer) implies #[trigger] ladder[j].0 <= layer by {
            if j > 0 {
                assert(ladder[j] == rest[j - 1]);
            }
        }
    }
}

/// Law: a position that brackets the layer (every threshold before it at or below the layer,
/// its own threshold above it or no rung at all) is the first rung above the layer.
pub proof fn lemma_rung_position_unique(ladder: Seq<(i32, MacosWindowLevel)>, layer: int, p: int)
    requires
        0 <= p <= ladder.len(),
        forall|j: int| 0 <= j < p ==> #[trigger] ladder[j].0 <= layer,
        p < ladder.len() ==> layer < ladder[p].0,
    ensures
        rung_position(ladder, layer) == p,
    decreases ladder.len(),
{
    if ladder.len() > 0 && p > 0 {
        let rest = ladder.drop_first();
        assert(ladder[0].0 <= layer);
        assert forall|j: int| 0 <= j < p - 1 implies #[trigger] rest[j].0 <= layer by {
            assert(rest[j] == ladder[j + 1]);
        }
        if p - 1 < rest.len() {
            assert(rest[p - 1] == ladder[p]);
        }
        lemma_rung_position_unique(rest, layer, p - 1);
    }
}

/// Law: a higher layer never lands on an earlier rung. For every ladder, if `low <= high` then
/// the rung chosen for `low` comes no later than the rung chosen for `high`.
pub proof fn lemma_rung_position_monotone(ladder: Seq<(i32, MacosWindowLevel)>, low: int, high: int)
    requires
        low <= high,
    ensures
        rung_position(ladder, low) <= rung_position(ladder, high),
{
    lemma_rung_position_brackets(ladder, low);
    lemma_rung_position_brackets(ladder, high);
    let pl = rung_position(ladder, low);
    let ph = rung_position(ladder, high);
    if ph < pl {
        assert(ladder[ph as int].0 <= low);
        assert(high < ladder[ph as int].0);
    }
}

/// Law: the rank of the level given to a layer is the index of the layer's rung; a layer that
/// reaches every threshold gets `Cursor`, whose rank is the number of rungs.
pub proof fn lemma_level_rank_is_rung_position(levels: WindowLevels, layer: int)
    ensures
        level_for_layer(levels, layer).rank() == rung_position(level_ladder(levels), layer),
{
    let ladder = level_ladder(levels);
    lemma_rung_position_brackets(ladder, layer);
    assert(ladder.len() == 18);
    assert(forall|k: int| 0 <= k < 18 ==> (#[trigger] ladder[k]).1.rank() == k);
}

/// Law: a window higher in the stack never gets a lower level. For any thresholds, if
/// `low <= high` then the level of layer `low` is not above the level of layer `high` in the
/// order of `MacosWindowLevel`.
pub proof fn lemma_level_monotone(levels: WindowLevels, low: int, high: int)
    requires
        low <= high,
    ensures
        level_for_layer(levels, low).rank() <= level_for_layer(levels, high).rank(),
{
    lemma_rung_position_monotone(level_ladder(levels), low, high);
    lemma_level_rank_is_rung_position(levels, low);
    lemma_level_rank_is_rung_position(levels, high);
}

/// The threshold at which the band of a level starts: the window server's value for the
/// level's own key (none for `BelowDesktop`, whose band has no lower end).
pub open spec fn band_floor(levels: WindowLevels, level: MacosWindowLevel) -> Option<i32> {
    match level {
        MacosWindowLevel::BelowDesktop => None,
        MacosWindowLevel::Desktop => Some(levels.desktop),
        MacosWindowLevel::DesktopIcon => Some(levels.desktop_icon),
        MacosWindowLevel::Backstop => Some(levels.backstop),
        MacosWindowLevel::Normal => Some(levels.normal),
        MacosWindowLevel::Floating => Some(levels.floating),
        MacosWindowLevel::TornOffMenu => Some(levels.torn_off_menu),
        MacosWindowLevel::ModalPanel => Some(levels.modal_panel),
        MacosWindowLevel::Utility => Some(levels.utility),
        MacosWindowLevel::Dock => Some(levels.dock),
        MacosWindowLevel::MainMenu => Some(levels.main_menu),
        MacosWindowLevel::Status => Some(levels.status),
        MacosWindowLevel::PopupMenu => Some(levels.pop_up_menu),
        MacosWindowLevel::Overlay => Some(levels.overlay),
        MacosWindowLevel::Help => Some(levels.help),
        MacosWindowLevel::Dragging => Some(levels.dragging),
        MacosWindowLevel::ScreenSaver => Some(levels.screen_saver),
        MacosWindowLevel::AssistiveTechHigh => Some(levels.assistive_tech_high),
        MacosWindowLevel::Cursor => Some(levels.cursor),
    }
}

/// The threshold at which the band of a level ends: where the band of the next level up starts
/// (none for `Cursor`, whose band has no upper end).
pub open spec fn band_ceiling(levels: WindowLevels, level: MacosWindowLevel) -> Option<i32> {
    match level {
        MacosWindowLevel::BelowDesktop => Some(levels.desktop),
        MacosWindowLevel::Desktop => Some(levels.desktop_icon),
        MacosWindowLevel::DesktopIcon => Some(levels.backstop),
        MacosWindowLevel::Backstop => Some(levels.normal),
        MacosWindowLevel::Normal => Some(levels.floating),
        MacosWindowLevel::Floating => Some(levels.torn_off_menu),
        MacosWindowLevel::TornOffMenu => Some(levels.modal_panel),
        MacosWindowLevel::ModalPanel => Some(levels.utility),
        MacosWindowLevel::Utility => Some(levels.dock),
        MacosWindowLevel::Dock => Some(levels.main_menu),
        MacosWindowLevel::MainMenu => Some(levels.status),
        MacosWindowLevel::Status => Some(levels.pop_up_menu),
        MacosWindowLevel::PopupMenu => Some(levels.overlay),
        MacosWindowLevel::Overlay => Some(levels.help),
        MacosWindowLevel::Help => Some(levels.dragging),
        MacosWindowLevel::Dragging => Some(levels.screen_saver),
        MacosWindowLevel::ScreenSaver => Some(levels.assistive_tech_high),
        MacosWindowLevel::AssistiveTechHigh => Some(levels.cursor),
        MacosWindowLevel::Cursor => None,
    }
}

/// Law: a layer gets the level whose band contains it. The layer is at or above the threshold
/// of the level's own key, and strictly below the threshold of the next level's key, for any
/// thresholds the window server reports.
pub proof fn lemma_level_band_contains_layer(levels: WindowLevels, layer: int)
    ensures
        band_floor(levels, level_for_layer(levels, layer)) matches Some(lo) ==> lo <= layer,
        band_ceiling(levels, level_for_layer(levels, layer)) matches Some(hi) ==> layer < hi,
{
    let ladder = level_ladder(levels);
    lemma_rung_position_brackets(ladder, layer);
    assert(ladder.len() == 18);
    assert(forall|k: int| 1 <= k < 18 ==> band_floor(levels, (#[trigger] ladder[k]).1) == Some(ladder[k - 1].0));
    assert(forall|k: int| 0 <= k < 18 ==> band_ceiling(levels, (#[trigger] ladder[k]).1) == Some(ladder[k].0));
    assert(band_floor(levels, ladder[0].1) is None);
    assert(band_floor(levels, MacosWindowLevel::Cursor) == Some(ladder[17].0));
    let p = rung_position(ladder, layer);
    if p > 0 {
        assert(ladder[p - 1].0 <= layer);
    }
}

/// Classifies a window layer into the window level whose band contains it: the level of the
/// first rung of the ladder whose threshold lies strictly above `layer`, and `Cursor` when the
/// layer reaches every threshold.
pub fn window_level_for_layer(levels: &WindowLevels, layer: i32) -> (level: MacosWindowLevel)
    ensures
        level == level_for_layer(*levels, layer as int),
{
    let rungs: Vec<(i32, MacosWindowLevel)> = vec![
        (levels.desktop, MacosWindowLevel::BelowDesktop),
        (levels.desktop_icon, MacosWindowLevel::Desktop),
        (levels.backstop, MacosWindowLevel::DesktopIcon),
        (levels.normal, MacosWindowLevel::Backstop),
        (levels.floating, MacosWindowLevel::Normal),
        (levels.torn_off_menu, MacosWindowLevel::Floating),
        (levels.modal_panel, MacosWindowLevel::TornOffMenu),
        (levels.utility, MacosWindowLevel::ModalPanel),
        (levels.dock, MacosWindowLevel::Utility),
        (levels.main_menu, MacosWindowLevel::Dock),
        (levels.status, MacosWindowLevel::MainMenu),
        (levels.pop_up_menu, MacosWindowLevel::Status),
        (levels.overlay, MacosWindowLevel::PopupMenu),
        (levels.help, MacosWindowLevel::Overlay),
        (levels.dragging, MacosWindowLevel::Help),
        (levels.screen_saver, MacosWindowLevel::Dragging),
        (levels.assistive_tech_high, MacosWindowLevel::ScreenSaver),
        (levels.cursor, MacosWindowLevel::AssistiveTechHigh),
    ];
    let ghost ladder = level_ladder(*levels);
    assert(rungs@ =~= ladder);
    let mut i: usize = 0;
    while i < rungs.len()
        invariant
            i <= rungs.len(),
            rungs@ == ladder,
            ladder == level_ladder(*levels),
            forall|j: int| 0 <= j < i ==> #[trigger] ladder[j].0 <= layer,
        decreases rungs.len() - i,
    {
        let (threshold, rung_level) = rungs[i];
        if layer < threshold {
            proof {
                lemma_rung_position_unique(ladder, layer as int, i as int);
                assert(rung_level == ladder[i as int].1);
            }
            return rung_level;
        }
        i = i + 1;
    }
    proof {
        lemma_rung_position_unique(ladder, layer as int, i as int);
    }
    MacosWindowLevel::Cursor
}

/// The layer of a window, read from its description; fails when there is no description.
pub fn get_window_layer(description: Result<WindowDescription, ()>) -> (layer: Result<i32, ()>)
    ensures
        layer == (match description {
            Ok(d) => Ok::<i32, ()>(d.window_layer),
            Err(_) => Err::<i32, ()>(()),
        }),
{
    match description {
        Ok(d) => Ok(d.window_layer),
        Err(_) => Err(()),
    }
}

/// The level of the window that `description` describes, or `Err(())` when there is no
/// description.
pub open spec fn level_of_description(levels: WindowLevels, description: Result<WindowDescription, ()>) -> Result<MacosWindowLevel, ()> {
    match description {
        Ok(d) => Ok(level_for_layer(levels, d.window_layer as int)),
        Err(_) => Err(()),
    }
}

/// The level of a window: its layer, read from its description, classified against the
/// window server's thresholds. Fails exactly when the layer cannot be read.
pub fn get_window_level(levels: &WindowLevels, description: Result<WindowDescription, ()>) -> (level: Result<MacosWindowLevel, ()>)
    ensures
        level == level_of_description(*levels, description),
{
    let layer = get_window_layer(description)?;
    Ok(window_level_for_layer(levels, layer))
}

} // verus!
