use pc_race::flow::{next_state, AppState, MenuAction};
use pc_race::session::GameSession;
use pc_race::telemetry::{
    average_cpu_temp, contains_subslice, is_cpu_component_label, measure_pc_status,
    parse_gpu_probe, parse_u64_bytes, refresh_pc_status, trim_slice, ComponentReading, PcStatus,
};

fn reading(label: &str, temperature: Option<u64>) -> ComponentReading {
    ComponentReading { label: label.as_bytes().to_vec(), temperature }
}

#[test]
fn probe_line_parses_temperature_and_clock() {
    assert_eq!(parse_gpu_probe(b"45, 1500"), Some((45, 1500)));
    assert_eq!(parse_gpu_probe(b"  45 ,1500\n"), Some((45, 1500)));
    assert_eq!(parse_gpu_probe(b"45,1500,77"), Some((45, 1500)));
    assert_eq!(parse_gpu_probe(b"45"), None);
    assert_eq!(parse_gpu_probe(b""), None);
    assert_eq!(parse_gpu_probe(b"abc, 1500"), None);
    assert_eq!(parse_gpu_probe(b"45, "), None);
    assert_eq!(parse_gpu_probe(b"45, 15x0"), None);
    assert_eq!(parse_gpu_probe(b"99999999999999999999999, 1500"), None);
}

#[test]
fn trimming_strips_only_the_edges() {
    assert_eq!(trim_slice(b"  45 \r\n"), b"45");
    assert_eq!(trim_slice(b"4 5"), b"4 5");
    assert_eq!(trim_slice(b"   "), b"");
    assert_eq!(trim_slice(b""), b"");
}

#[test]
fn decimal_fields_read_exactly() {
    assert_eq!(parse_u64_bytes(b"0"), Some(0));
    assert_eq!(parse_u64_bytes(b"1500"), Some(1500));
    assert_eq!(parse_u64_bytes(b"18446744073709551615"), Some(u64::MAX));
    assert_eq!(parse_u64_bytes(b"18446744073709551616"), None);
    assert_eq!(parse_u64_bytes(b""), None);
    assert_eq!(parse_u64_bytes(b"1 5"), None);
}

#[test]
fn substring_search_finds_needles() {
    assert!(contains_subslice(b"coretemp", b"core"));
    assert!(contains_subslice(b"abc", b""));
    assert!(!contains_subslice(b"ab", b"abc"));
    assert!(contains_subslice(b"xxcpu", b"cpu"));
    assert!(!contains_subslice(b"cp-u", b"cpu"));
}

#[test]
fn cpu_labels_are_recognised_case_blind() {
    assert!(is_cpu_component_label(b"CPU Package"));
    assert!(is_cpu_component_label(b"coretemp Core 0"));
    assert!(is_cpu_component_label(b"PACKAGE id 0"));
    assert!(!is_cpu_component_label(b"gpu hotspot"));
    assert!(!is_cpu_component_label(b"nvme composite"));
}

#[test]
fn cpu_temperatures_average_over_matching_sensors() {
    let readings = vec![
        reading("Core 0", Some(50)),
        reading("Core 1", Some(61)),
        reading("gpu", Some(90)),
        reading("CPU Package", Some(54)),
        reading("Core 2", Some(0)),
        reading("acpitz", None),
    ];
    let (avg, found) = average_cpu_temp(&readings);
    assert_eq!(avg, 55);
    assert!(found);
    let none: Vec<ComponentReading> = vec![reading("gpu", Some(70))];
    let (avg2, found2) = average_cpu_temp(&none);
    assert_eq!(avg2, 0);
    assert!(!found2);
}

#[test]
fn measurement_substitutes_the_documented_defaults() {
    let readings: Vec<ComponentReading> = Vec::new();
    let st = measure_pc_status(
        &readings,
        String::from("cpu0"),
        String::from("gpu0"),
        None,
        50,
        8_000_000_000,
        3_000_000_000,
        None,
        100_000_000_000,
    );
    assert_eq!(st.cpu_frequency, 3_000);
    assert_eq!(st.gpu_clock, 1_500);
    assert_eq!(st.gpu_temp, 0);
    assert_eq!(st.gpu_usage, 55);
    assert_eq!(st.cpu_temp, 0);
    assert!(st.sensor_error);
    assert_eq!(st.total_memory, 8_000_000_000);
    assert_eq!(st.used_memory, 3_000_000_000);
    assert_eq!(st.ssd_available, 100_000_000_000);
}

#[test]
fn measurement_takes_probe_readings_when_present() {
    let readings = vec![reading("Core 0", Some(48))];
    let st = measure_pc_status(
        &readings,
        String::new(),
        String::new(),
        Some(4_200),
        10,
        8_000_000_000,
        3_000_000_000,
        Some((62, 1_800)),
        0,
    );
    assert_eq!(st.cpu_frequency, 4_200);
    assert_eq!(st.gpu_temp, 62);
    assert_eq!(st.gpu_clock, 1_800);
    assert_eq!(st.cpu_temp, 48);
    assert!(!st.sensor_error);
}

#[test]
fn refresh_keeps_gpu_readings_on_probe_failure() {
    let readings = vec![reading("Core 0", Some(70))];
    let mut st = measure_pc_status(
        &readings,
        String::new(),
        String::new(),
        Some(3_500),
        10,
        8_000_000_000,
        3_000_000_000,
        Some((62, 1_800)),
        0,
    );
    let mut session = GameSession::default();
    let hot = vec![reading("Core 0", Some(80))];
    refresh_pc_status(&mut st, &mut session, &hot, None, 90, 8_000_000_000, 7_000_000_000, None);
    assert_eq!(st.gpu_temp, 62);
    assert_eq!(st.gpu_clock, 1_800);
    assert_eq!(st.cpu_temp, 80);
    assert_eq!(st.cpu_frequency, 0);
    assert_eq!(st.used_memory, 7_000_000_000);
    assert_eq!(session.current_temp, 142);
}

#[test]
fn refresh_is_a_no_op_after_game_over() {
    let readings = vec![reading("Core 0", Some(70))];
    let mut st = measure_pc_status(
        &readings,
        String::new(),
        String::new(),
        Some(3_500),
        10,
        8_000_000_000,
        3_000_000_000,
        Some((62, 1_800)),
        0,
    );
    let mut session = GameSession::default();
    session.is_game_over = true;
    session.game_over_cause = pc_race::session::GameOverCause::Crash;
    let temp_before = session.current_temp;
    let cpu_before = st.cpu_temp;
    refresh_pc_status(&mut st, &mut session, &readings, None, 90, 8_000_000_000, 100, None);
    assert_eq!(st.cpu_temp, cpu_before);
    assert_eq!(st.used_memory, 3_000_000_000);
    assert_eq!(session.current_temp, temp_before);
}

#[test]
fn menu_flow_walks_to_the_race() {
    assert_eq!(next_state(AppState::Home, MenuAction::Start), Some(AppState::ModeSelect));
    assert_eq!(next_state(AppState::ModeSelect, MenuAction::TimeAttack), Some(AppState::CourseSelect));
    assert_eq!(next_state(AppState::CourseSelect, MenuAction::CourseChosen), Some(AppState::CarSelect));
    assert_eq!(next_state(AppState::CarSelect, MenuAction::CarChosen), Some(AppState::MeasurePerformance));
    assert_eq!(next_state(AppState::MeasurePerformance, MenuAction::MeasureDone), Some(AppState::TimeAttackGame));
    assert_eq!(next_state(AppState::TimeAttackGame, MenuAction::RunEnded), Some(AppState::Result));
    assert_eq!(next_state(AppState::Result, MenuAction::Back), Some(AppState::Home));
}

#[test]
fn menu_flow_side_trips_and_exit() {
    assert_eq!(next_state(AppState::Home, MenuAction::OpenSettings), Some(AppState::Settings));
    assert_eq!(next_state(AppState::Settings, MenuAction::Back), Some(AppState::Home));
    assert_eq!(next_state(AppState::Home, MenuAction::OpenCalcInfo), Some(AppState::CalcInfo));
    assert_eq!(next_state(AppState::CalcInfo, MenuAction::Back), Some(AppState::Home));
    assert_eq!(next_state(AppState::ModeSelect, MenuAction::Back), Some(AppState::Home));
    assert_eq!(next_state(AppState::Home, MenuAction::Exit), None);
    assert_eq!(next_state(AppState::ModeSelect, MenuAction::Race), Some(AppState::ModeSelect));
    assert_eq!(next_state(AppState::CourseSelect, MenuAction::Start), Some(AppState::CourseSelect));
}

#[test]
fn default_state_is_home() {
    assert_eq!(AppState::default(), AppState::Home);
    let s: PcStatus = measure_pc_status(
        &Vec::new(),
        String::new(),
        String::new(),
        Some(1),
        0,
        0,
        0,
        None,
        0,
    );
    assert_eq!(s.cpu_frequency, 1);
}
