//! What the user has chosen to see, and the panels that follow from it.

use vstd::prelude::*;
use crate::plot::PlotMode;
use crate::sensor::SensorKind;

verus! {

/// How a kind's readings are shown.
#[derive(Clone, Copy, Debug, PartialEq, Eq, Structural)]
pub enum OutputStyle {
    Table,
    Graph,
}

/// The shortest and longest collection time that can be chosen, in minutes.
pub const MIN_COLLECT_MINUTES: i32 = 1;

pub const MAX_COLLECT_MINUTES: i32 = 120;

/// The user's choices.
#[derive(Clone, Copy, Debug, PartialEq, Eq, Structural)]
pub struct Settings {
    pub adc_selected: bool,
    pub gps_selected: bool,
    pub mkr_selected: bool,
    pub selected_adc_output_style: OutputStyle,
    pub selected_gps_output_style: OutputStyle,
    pub selected_mkr_output_style: OutputStyle,
    /// For how many minutes data is to be collected.
    pub time_to_collect: i32,
}

/// What one panel of the display shows.
#[derive(Clone, Copy, Debug, PartialEq, Eq, Structural)]
pub enum PanelView {
    Table,
    Plot(PlotMode),
}

/// One panel of the display: a kind's readings in one view.
#[derive(Clone, Copy, Debug, PartialEq, Eq, Structural)]
pub struct Panel {
    pub kind: SensorKind,
    pub view: PanelView,
}

/// The mode in which a kind's readings are plotted: the two coordinates of a
/// position against each other, everything else against time.
pub open spec fn spec_graph_mode(kind: SensorKind) -> PlotMode {
    match kind {
        SensorKind::ADC => PlotMode::PrimaryOverTime,
        SensorKind::GPS => PlotMode::SecondaryOverPrimary,
        SensorKind::MKR => PlotMode::PrimaryOverTime,
    }
}

#[verifier::when_used_as_spec(spec_graph_mode)]
pub fn graph_mode(kind: SensorKind) -> (mode: PlotMode)
    ensures
        mode == spec_graph_mode(kind),
{
    match kind {
        SensorKind::ADC => PlotMode::PrimaryOverTime,
        SensorKind::GPS => PlotMode::SecondaryOverPrimary,
        SensorKind::MKR => PlotMode::PrimaryOverTime,
    }
}

impl Settings {
    /// The collection time lies within what can be chosen.
    pub open spec fn wf(&self) -> bool {
        MIN_COLLECT_MINUTES <= self.time_to_collect <= MAX_COLLECT_MINUTES
    }

    pub open spec fn spec_is_selected(&self, kind: SensorKind) -> bool {
        match kind {
            SensorKind::ADC => self.adc_selected,
            SensorKind::GPS => self.gps_selected,
            SensorKind::MKR => self.mkr_selected,
        }
    }

    pub open spec fn spec_output_style(&self, kind: SensorKind) -> OutputStyle {
        match kind {
            SensorKind::ADC => self.selected_adc_output_style,
            SensorKind::GPS => self.selected_gps_output_style,
            SensorKind::MKR => self.selected_mkr_output_style,
        }
    }

    /// The panel in which a kind is shown under these settings.
    pub open spec fn spec_panel(&self, kind: SensorKind) -> Panel {
        Panel {
            kind,
            view: match self.spec_output_style(kind) {
                OutputStyle::Table => PanelView::Table,
                OutputStyle::Graph => PanelView::Plot(spec_graph_mode(kind)),
            },
        }
    }

    /// The panels of the selected kinds, from top to bottom.
    pub open spec fn spec_panels(&self) -> Seq<Panel> {
        (if self.adc_selected {
            seq![self.spec_panel(SensorKind::ADC)]
        } else {
            seq![]
        }) + (if self.gps_selected {
            seq![self.spec_panel(SensorKind::GPS)]
        } else {
            seq![]
        }) + (if self.mkr_selected {
            seq![self.spec_panel(SensorKind::MKR)]
        } else {
            seq![]
        })
    }

    /// Whether a kind's readings are shown.
    pub fn is_selected(&self, kind: SensorKind) -> (selected: bool)
        ensures
            selected == self.spec_is_selected(kind),
    {
        match kind {
            SensorKind::ADC => self.adc_selected,
            SensorKind::GPS => self.gps_selected,
            SensorKind::MKR => self.mkr_selected,
        }
    }

    /// How a kind's readings are shown.
    pub fn output_style(&self, kind: SensorKind) -> (style: OutputStyle)
        ensures
            style == self.spec_output_style(kind),
    {
        match kind {
            SensorKind::ADC => self.selected_adc_output_style,
            SensorKind::GPS => self.selected_gps_output_style,
            SensorKind::MKR => self.selected_mkr_output_style,
        }
    }

    pub fn panel(&self, kind: SensorKind) -> (panel: Panel)
        ensures
            panel == self.spec_panel(kind),
    {
        let view = match self.output_style(kind) {
            OutputStyle::Table => PanelView::Table,
            OutputStyle::Graph => PanelView::Plot(graph_mode(kind)),
        };
        Panel { kind, view }
    }

    /// How many kinds are selected; the display is divided evenly among them.
    pub fn selected_count(&self) -> (count: usize)
        ensures
            count == self.spec_panels().len(),
            count <= 3,
    {
        let mut count: usize = 0;
        if self.adc_selected {
            count = count + 1;
        }
        if self.gps_selected {
            count = count + 1;
        }
        if self.mkr_selected {
            count = count + 1;
        }
        count
    }

    pub fn panels(&self) -> (panels: Vec<Panel>)
        ensures
            panels@ == self.spec_panels(),
    {
        let mut panels: Vec<Panel> = Vec::new();
        if self.adc_selected {
            panels.push(self.panel(SensorKind::ADC));
        }
        if self.gps_selected {
            panels.push(self.panel(SensorKind::GPS));
        }
        if self.mkr_selected {
            panels.push(self.panel(SensorKind::MKR));
        }
        assert(panels@ =~= self.spec_panels());
        panels
    }
}

impl Default for Settings {
    /// Nothing selected; tables for the ADC and the MIKROE sensor, a graph
    /// for the GPS; thirty minutes of collection.
    fn default() -> (settings: Settings)
        ensures
            settings == (Settings {
                adc_selected: false,
                gps_selected: false,
                mkr_selected: false,
                selected_adc_output_style: OutputStyle::Table,
                selected_gps_output_style: OutputStyle::Graph,
                selected_mkr_output_style: OutputStyle::Table,
                time_to_collect: 30,
            }),
            settings.wf(),
            settings.spec_panels().len() == 0,
    {
        Settings {
            adc_selected: false,
            gps_selected: false,
            mkr_selected: false,
            selected_adc_output_style: OutputStyle::Table,
            selected_gps_output_style: OutputStyle::Graph,
            selected_mkr_output_style: OutputStyle::Table,
            time_to_collect: 30,
        }
    }
}

/// The panels are those of the selected kinds: every panel shows a selected
/// kind in the view chosen for it, every selected kind has a panel, and no
/// kind has two.
pub proof fn lemma_panels_are_the_selected(settings: Settings, kind: SensorKind)
    ensures
        forall|i: int|
            0 <= i < settings.spec_panels().len() ==> {
                let panel = #[trigger] settings.spec_panels()[i];
                settings.spec_is_selected(panel.kind) && panel == settings.spec_panel(panel.kind)
            },
        settings.spec_is_selected(kind) <==> settings.spec_panels().contains(
            settings.spec_panel(kind),
        ),
        forall|i: int, j: int|
            0 <= i < j < settings.spec_panels().len() ==> settings.spec_panels()[i].kind
                != settings.spec_panels()[j].kind,
{
    let panels = settings.spec_panels();
    if settings.spec_is_selected(kind) {
        let at: int = match kind {
            SensorKind::ADC => 0,
            SensorKind::GPS => if settings.adc_selected {
                1
            } else {
                0
            },
            SensorKind::MKR => panels.len() - 1,
        };
        assert(panels[at] == settings.spec_panel(kind));
    }
}

} // verus!
