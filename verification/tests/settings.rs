use daq_core::plot::PlotMode;
use daq_core::sensor::SensorKind;
use daq_core::settings::{graph_mode, OutputStyle, Panel, PanelView, Settings};

#[test]
fn default_settings_select_nothing() {
    let settings = Settings::default();
    assert!(!settings.adc_selected && !settings.gps_selected && !settings.mkr_selected);
    assert_eq!(settings.selected_adc_output_style, OutputStyle::Table);
    assert_eq!(settings.selected_gps_output_style, OutputStyle::Graph);
    assert_eq!(settings.selected_mkr_output_style, OutputStyle::Table);
    assert_eq!(settings.time_to_collect, 30);
    assert_eq!(settings.selected_count(), 0);
    assert_eq!(settings.panels(), Vec::<Panel>::new());
}

#[test]
fn panels_follow_the_selection_in_order() {
    let mut settings = Settings::default();
    settings.adc_selected = true;
    settings.gps_selected = true;
    settings.mkr_selected = true;
    assert_eq!(settings.selected_count(), 3);
    assert_eq!(
        settings.panels(),
        vec![
            Panel { kind: SensorKind::ADC, view: PanelView::Table },
            Panel { kind: SensorKind::GPS, view: PanelView::Plot(PlotMode::SecondaryOverPrimary) },
            Panel { kind: SensorKind::MKR, view: PanelView::Table },
        ]
    );
    settings.gps_selected = false;
    settings.selected_mkr_output_style = OutputStyle::Graph;
    assert_eq!(settings.selected_count(), 2);
    assert_eq!(
        settings.panels(),
        vec![
            Panel { kind: SensorKind::ADC, view: PanelView::Table },
            Panel { kind: SensorKind::MKR, view: PanelView::Plot(PlotMode::PrimaryOverTime) },
        ]
    );
}

#[test]
fn each_kind_has_its_graph_mode() {
    assert_eq!(graph_mode(SensorKind::ADC).index(), 0);
    assert_eq!(graph_mode(SensorKind::GPS).index(), 3);
    assert_eq!(graph_mode(SensorKind::MKR).index(), 0);
}

#[test]
fn selection_and_style_are_read_per_kind() {
    let mut settings = Settings::default();
    settings.gps_selected = true;
    settings.selected_adc_output_style = OutputStyle::Graph;
    assert!(!settings.is_selected(SensorKind::ADC));
    assert!(settings.is_selected(SensorKind::GPS));
    assert!(!settings.is_selected(SensorKind::MKR));
    assert_eq!(settings.output_style(SensorKind::ADC), OutputStyle::Graph);
    assert_eq!(settings.output_style(SensorKind::GPS), OutputStyle::Graph);
    assert_eq!(settings.output_style(SensorKind::MKR), OutputStyle::Table);
    assert_eq!(
        settings.panel(SensorKind::ADC),
        Panel { kind: SensorKind::ADC, view: PanelView::Plot(PlotMode::PrimaryOverTime) }
    );
}
