//! The presentation side: what the window shows for each state of the link,
//! and which command each control stands for. Drawing is left to the program.

use crate::bt::frame::{BtCommands, CmdData};
use crate::bt::link::BtToGui;
use vstd::prelude::*;

verus! {

/// Highest value a setting slider offers.
pub const SETTING_MAX: u8 = 63;

/// Number of mode buttons.
pub const MODE_COUNT: usize = 8;

/// Number of mode buttons in one row.
pub const MODES_PER_ROW: usize = 2;

/// Number of setting sliders.
pub const SETTING_COUNT: usize = 2;

/// What the window holds between frames.
#[derive(Debug, PartialEq, Eq)]
pub struct UiState {
    pub bt_state: BtToGui,
    pub headset_type: String,
    pub headset_color: [u8; 3],
    pub headset_settings: [u8; 2],
}

/// The line shown while the link is not ready; none once it is, when the
/// controls take its place.
pub open spec fn status_line(state: BtToGui) -> Option<Seq<char>> {
    match state {
        BtToGui::Init => Some("Searching for BT adapter..."@),
        BtToGui::AdapterConnected => Some("Adapter connected. Searching for headset..."@),
        BtToGui::Found(_) => Some("Headset found. Connecting to headset..."@),
        BtToGui::Connected => Some("Connected. Discovering services..."@),
        BtToGui::Ready => None,
    }
}

/// The caption of the button for `mode`. Modes run from 1 to 8; the last
/// has no known meaning.
pub open spec fn mode_caption(mode: u8) -> Option<Seq<char>> {
    if mode == 1 {
        Some("Default"@)
    } else if mode == 2 {
        Some("Flash"@)
    } else if mode == 3 {
        Some("Breath"@)
    } else if mode == 4 {
        Some("Rhythm"@)
    } else if mode == 5 {
        Some("Yowu"@)
    } else if mode == 6 {
        Some("Lights off"@)
    } else if mode == 7 {
        Some("Lights on"@)
    } else if mode == 8 {
        Some("?"@)
    } else {
        None
    }
}

/// The caption of the slider for setting `which`.
pub open spec fn setting_caption(which: usize) -> Option<Seq<char>> {
    if which == 0 {
        Some("Brightness"@)
    } else if which == 1 {
        Some("Speed"@)
    } else {
        None
    }
}

/// The mode that the button in `row` and `column` stands for: buttons are
/// numbered from 1, row by row.
pub open spec fn button_mode(row: usize, column: usize) -> Option<u8> {
    if column < MODES_PER_ROW && row * MODES_PER_ROW + column < MODE_COUNT {
        Some((row * MODES_PER_ROW + column + 1) as u8)
    } else {
        None
    }
}

/// A command with one field set and every other field zero.
pub open spec fn only_color(rgb: [u8; 3]) -> CmdData {
    CmdData { mode: 0, rgb, bpm: 0, duration: 0 }
}

/// A command that sets the mode and leaves every other field zero.
pub open spec fn only_mode(mode: u8) -> CmdData {
    CmdData { mode, rgb: [0u8, 0u8, 0u8], bpm: 0, duration: 0 }
}

/// A command that carries one setting and leaves every other field zero:
/// the first setting travels as the rate, the second as the duration.
pub open spec fn only_setting(which: usize, value: u8) -> CmdData {
    if which == 0 {
        CmdData { mode: 0, rgb: [0u8, 0u8, 0u8], bpm: value, duration: 0 }
    } else {
        CmdData { mode: 0, rgb: [0u8, 0u8, 0u8], bpm: 0, duration: value }
    }
}

impl Default for UiState {
    /// The window before anything is known: nothing found, every control at
    /// zero.
    fn default() -> (state: Self)
        ensures
            state.bt_state == BtToGui::Init,
            state.headset_type@ == Seq::<char>::empty(),
            state.headset_color@ == seq![0u8, 0u8, 0u8],
            state.headset_settings@ == seq![0u8, 0u8],
    {
        UiState {
            bt_state: BtToGui::Init,
            headset_type: String::new(),
            headset_color: [0, 0, 0],
            headset_settings: [0, 0],
        }
    }
}

/// The line shown while the link is not ready.
pub fn status_text(state: &BtToGui) -> (line: Option<&'static str>)
    ensures
        line is Some <==> status_line(*state) is Some,
        line matches Some(text) ==> status_line(*state) == Some(text@),
        line is None <==> *state == BtToGui::Ready,
{
    match state {
        BtToGui::Init => Some("Searching for BT adapter..."),
        BtToGui::AdapterConnected => Some("Adapter connected. Searching for headset..."),
        BtToGui::Found(_) => Some("Headset found. Connecting to headset..."),
        BtToGui::Connected => Some("Connected. Discovering services..."),
        BtToGui::Ready => None,
    }
}

/// The caption of the button for `mode`.
pub fn mode_label(mode: u8) -> (label: Option<&'static str>)
    ensures
        label is Some <==> 1 <= mode <= MODE_COUNT,
        label is Some <==> mode_caption(mode) is Some,
        label matches Some(text) ==> mode_caption(mode) == Some(text@),
{
    if mode == 1 {
        Some("Default")
    } else if mode == 2 {
        Some("Flash")
    } else if mode == 3 {
        Some("Breath")
    } else if mode == 4 {
        Some("Rhythm")
    } else if mode == 5 {
        Some("Yowu")
    } else if mode == 6 {
        Some("Lights off")
    } else if mode == 7 {
        Some("Lights on")
    } else if mode == 8 {
        Some("?")
    } else {
        None
    }
}

/// The caption of the slider for setting `which`.
pub fn setting_label(which: usize) -> (label: Option<&'static str>)
    ensures
        label is Some <==> which < SETTING_COUNT,
        label is Some <==> setting_caption(which) is Some,
        label matches Some(text) ==> setting_caption(which) == Some(text@),
{
    if which == 0 {
        Some("Brightness")
    } else if which == 1 {
        Some("Speed")
    } else {
        None
    }
}

/// The mode that the button in `row` and `column` stands for.
pub fn mode_of_button(row: usize, column: usize) -> (mode: Option<u8>)
    ensures
        mode == button_mode(row, column),
        mode matches Some(m) ==> 1 <= m <= MODE_COUNT && m == row * MODES_PER_ROW + column + 1,
        mode is Some <==> column < MODES_PER_ROW && row < MODE_COUNT / MODES_PER_ROW,
{
    if column < MODES_PER_ROW && row < MODE_COUNT / MODES_PER_ROW {
        let index: usize = row * MODES_PER_ROW + column;
        Some((index + 1) as u8)
    } else {
        None
    }
}

impl UiState {
    /// Whether the controls are shown: only once the link is ready.
    pub open spec fn spec_controls_shown(self) -> bool {
        self.bt_state == BtToGui::Ready
    }

    /// Whether the controls are shown.
    pub fn controls_shown(&self) -> (shown: bool)
        ensures
            shown == self.spec_controls_shown(),
    {
        match self.bt_state {
            BtToGui::Ready => true,
            _ => false,
        }
    }

    /// Takes a notification from the link: the state shown becomes the one
    /// notified, and a headset that was found is shown under its name.
    pub fn receive(&mut self, notice: BtToGui)
        ensures
            final(self).bt_state == notice,
            final(self).headset_type@ == match notice {
                BtToGui::Found(kind) => kind.spec_name(),
                _ => old(self).headset_type@,
            },
            final(self).headset_color == old(self).headset_color,
            final(self).headset_settings == old(self).headset_settings,
    {
        self.bt_state = notice;
        match notice {
            BtToGui::Found(kind) => {
                self.headset_type = kind.name();
            },
            _ => {},
        }
    }

    /// The command that "Apply" beside the colour stands for: the colour
    /// chosen, every other field zero. None while the controls are not shown.
    pub fn color_request(&self) -> (request: Option<BtCommands>)
        ensures
            request == if self.spec_controls_shown() {
                Some(BtCommands::SetMode(only_color(self.headset_color)))
            } else {
                None
            },
    {
        if self.controls_shown() {
            Some(
                BtCommands::SetMode(
                    CmdData { mode: 0, rgb: self.headset_color, bpm: 0, duration: 0 },
                ),
            )
        } else {
            None
        }
    }

    /// The command that the mode button in `row` and `column` stands for:
    /// its mode, every other field zero. None while the controls are not
    /// shown, and none where there is no such button.
    pub fn mode_request(&self, row: usize, column: usize) -> (request: Option<BtCommands>)
        ensures
            request == if self.spec_controls_shown() && button_mode(row, column) is Some {
                Some(BtCommands::SetMode(only_mode(button_mode(row, column)->Some_0)))
            } else {
                None
            },
    {
        if !self.controls_shown() {
            return None;
        }
        match mode_of_button(row, column) {
            Some(mode) => {
                let data = CmdData { mode, rgb: [0, 0, 0], bpm: 0, duration: 0 };
                assert(data.rgb =~= only_mode(mode).rgb);
                Some(BtCommands::SetMode(data))
            },
            None => None,
        }
    }

    /// The command that "apply" beside setting `which` stands for: the value
    /// of that slider, every other field zero. None while the controls are
    /// not shown, and none where there is no such setting.
    pub fn setting_request(&self, which: usize) -> (request: Option<BtCommands>)
        ensures
            request == if self.spec_controls_shown() && which < SETTING_COUNT {
                Some(
                    BtCommands::SetMode(only_setting(which, self.headset_settings[which as int])),
                )
            } else {
                None
            },
    {
        if !self.controls_shown() || which >= SETTING_COUNT {
            return None;
        }
        let value = self.headset_settings[which];
        let data = if which == 0 {
            CmdData { mode: 0, rgb: [0, 0, 0], bpm: value, duration: 0 }
        } else {
            CmdData { mode: 0, rgb: [0, 0, 0], bpm: 0, duration: value }
        };
        assert(data.rgb =~= only_setting(which, value).rgb);
        Some(BtCommands::SetMode(data))
    }
}

} // verus!
