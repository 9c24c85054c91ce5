use mkautoripper::command::{camera_failure_message, CameraOutcome};
use mkautoripper::database::{
    create_totals_table_statement, insert_initial_totals_statement, total_types,
    CREATE_LOGS_TABLE_SQL, INSERT_LOG_SQL,
};
use mkautoripper::machine::{
    action_choice_list, action_for_label, axis_move, find_steps_to_take, jog_for_button, Axis,
    ChoiceAction, JogButton, MachineState,
};
use mkautoripper::snapshot::{snapshot_next, SnapshotStep};
use mkautoripper::stepper::{SensorReading, StepAction, StepperRun};
use mkautoripper::text::join_texts;

const EXPECTED_ACTIONS: &str = "1 Step|10 Steps|100 Steps|500 Steps|1,000 Steps|5,000 Steps|10,000 Steps|25,000 Steps|50,000 Steps|100,000 Steps|Input One|Input Two|Input Three|Output One|Output Two|Output Three|Output Four|Drive Column One|Drive Column Two|Drive Column Three|Drive Column Four|Column Camera|Column HDDVD|Drive Row One|Drive Row Two|Drive Row Three|Drive Row Four|Row Camera|Row HDDVD|Horizontal to 0|Vertical to 0|Camera to 0";

#[test]
fn action_selector_list() {
    assert_eq!(action_choice_list(), EXPECTED_ACTIONS);
}

#[test]
fn action_selector_jog_entries_name_steps() {
    let list = action_choice_list();
    for (i, entry) in list.split('|').take(10).enumerate() {
        let steps = find_steps_to_take(i as i32);
        let digits: String = entry.split(' ').next().unwrap().chars().filter(|c| *c != ',').collect();
        assert_eq!(digits.parse::<i32>().unwrap(), steps);
        assert_eq!(action_for_label(entry), ChoiceAction::NoAction);
    }
}

#[test]
fn action_selector_entries_act() {
    let list = action_choice_list();
    let entries: Vec<&str> = list.split('|').collect();
    assert_eq!(entries.len(), 32);
    assert_eq!(action_for_label(entries[10]), ChoiceAction::HorizontalTo(0));
    assert_eq!(action_for_label(entries[16]), ChoiceAction::HorizontalTo(1756000));
    assert_eq!(action_for_label(entries[20]), ChoiceAction::HorizontalTo(1083500));
    for entry in &entries[21..29] {
        assert_eq!(action_for_label(entry), ChoiceAction::NoAction);
    }
    assert_eq!(action_for_label(entries[29]), ChoiceAction::ZeroAxis(Axis::Horizontal));
    assert_eq!(action_for_label(entries[30]), ChoiceAction::ZeroAxis(Axis::Vertical));
    assert_eq!(action_for_label(entries[31]), ChoiceAction::ZeroAxis(Axis::Tray));
}

#[test]
fn totals_schema_statements() {
    assert_eq!(
        create_totals_table_statement(),
        "CREATE TABLE IF NOT EXISTS totals (steps_left INTEGER NOT NULL DEFAULT 0, steps_right INTEGER NOT NULL DEFAULT 0, steps_down INTEGER NOT NULL DEFAULT 0, steps_up INTEGER NOT NULL DEFAULT 0, steps_forward INTEGER NOT NULL DEFAULT 0, steps_back INTEGER NOT NULL DEFAULT 0, images_taken INTEGER NOT NULL DEFAULT 0, cd_ripped INTEGER NOT NULL DEFAULT 0, dvd_ripped INTEGER NOT NULL DEFAULT 0, bray_ripped INTEGER NOT NULL DEFAULT 0, uhd_ripped INTEGER NOT NULL DEFAULT 0, hddvd_ripped INTEGER NOT NULL DEFAULT 0, tracks_ripped INTEGER NOT NULL DEFAULT 0);"
    );
    assert_eq!(
        insert_initial_totals_statement(),
        "INSERT INTO totals (steps_left, steps_right, steps_down, steps_up, steps_forward, steps_back, images_taken, cd_ripped, dvd_ripped, bray_ripped, uhd_ripped, hddvd_ripped, tracks_ripped) SELECT 0, 0, 0, 0, 0, 0, 0, 0, 0, 0, 0, 0, 0 WHERE NOT EXISTS (SELECT 1 FROM totals);"
    );
    assert!(CREATE_LOGS_TABLE_SQL.starts_with("CREATE TABLE IF NOT EXISTS logs"));
    assert!(INSERT_LOG_SQL.contains("VALUES (?, CURRENT_TIMESTAMP)"));
}

#[test]
fn every_total_is_a_schema_column() {
    let schema = create_totals_table_statement();
    let totals = total_types();
    assert_eq!(totals.len(), 13);
    for t in totals {
        assert!(schema.contains(&format!("{} INTEGER", t.as_column_name())));
    }
}

#[test]
fn join_texts_cases() {
    assert_eq!(join_texts(&vec![], ", "), "");
    assert_eq!(join_texts(&vec!["a".to_string()], ", "), "a");
    assert_eq!(join_texts(&vec!["a".to_string(), "b".to_string(), "c".to_string()], "|"), "a|b|c");
}

fn steps_for(requested: i32, readings: &[SensorReading]) -> i32 {
    let mut run = StepperRun::new(requested);
    let mut next = readings.iter();
    while run.is_running() {
        match next.next() {
            Some(reading) => {
                let _ = run.next_action(*reading);
            }
            None => break,
        }
    }
    run.steps_moved()
}

#[test]
fn whole_run_takes_steps_before_first_stop() {
    let free = SensorReading::EndStop { is_low: false };
    let stop = SensorReading::EndStop { is_low: true };
    assert_eq!(steps_for(10, &[free, free, stop, free]), 2);
    assert_eq!(steps_for(2, &[free, free, free, stop]), 2);
    assert_eq!(steps_for(-3, &[free, free]), 0);
    assert_eq!(steps_for(5, &[stop]), 0);
    let adc = [SensorReading::Adc { value: 20000 }, SensorReading::Adc { value: 16000 }, SensorReading::Adc { value: 12 }];
    assert_eq!(steps_for(100, &adc), 2);
    assert_eq!(steps_for(100, &adc), steps_for(100, &adc));
}

#[test]
fn next_action_answers() {
    let mut run = StepperRun::new(1);
    assert_eq!(run.next_action(SensorReading::Adc { value: 16000 }), StepAction::Pulse);
    assert!(!run.is_running());
}

#[test]
fn jog_sign_is_ignored() {
    assert_eq!(axis_move(Axis::Vertical, -100, true), axis_move(Axis::Vertical, 100, true));
    assert_eq!(axis_move(Axis::Tray, -7, false), axis_move(Axis::Tray, 7, false));
}

#[test]
fn vacuum_follows_successful_switch_only() {
    let mut state = MachineState::new();
    let target = state.vacuum_toggle_target();
    assert!(target);
    state.record_vacuum_switch(target, false);
    assert!(!state.vacuum_on);
    state.record_vacuum_switch(target, true);
    assert!(state.vacuum_on);
    assert!(!state.vacuum_toggle_target());
}

fn snapshot_steps(outcomes: [bool; 3]) -> Vec<SnapshotStep> {
    let mut seen = Vec::new();
    let mut step = SnapshotStep::LightOn;
    let mut k = 0;
    while step != SnapshotStep::Done {
        seen.push(step);
        step = snapshot_next(step, outcomes[k]);
        k += 1;
    }
    seen
}

#[test]
fn snapshot_order() {
    let all = vec![SnapshotStep::LightOn, SnapshotStep::TakePhoto, SnapshotStep::LightOff];
    assert_eq!(snapshot_steps([true, true, true]), all);
    assert_eq!(snapshot_steps([true, false, false]), all);
    assert_eq!(snapshot_steps([false, true, true]), vec![SnapshotStep::LightOn]);
}

#[test]
fn camera_failure_messages() {
    assert_eq!(camera_failure_message(CameraOutcome::Captured, b"noise", "x.png"), None);
    assert_eq!(
        camera_failure_message(CameraOutcome::CommandFailed, b"  no cameras available\n", "x.png").as_deref(),
        Some("libcamera-still failed: no cameras available")
    );
    assert_eq!(
        camera_failure_message(CameraOutcome::CommandFailed, b"bad \xff byte", "x.png").as_deref(),
        Some("libcamera-still failed: bad \u{fffd} byte")
    );
    assert_eq!(
        camera_failure_message(CameraOutcome::FileMissing, b"", "demo.png").as_deref(),
        Some("output file was not created: demo.png")
    );
}

#[test]
fn jog_buttons() {
    assert_eq!(jog_for_button(JogButton::Right), (Axis::Horizontal, true));
    assert_eq!(jog_for_button(JogButton::Left), (Axis::Horizontal, false));
    assert_eq!(jog_for_button(JogButton::Up), (Axis::Vertical, true));
    assert_eq!(jog_for_button(JogButton::Down), (Axis::Vertical, false));
    assert_eq!(jog_for_button(JogButton::Back), (Axis::Tray, true));
    assert_eq!(jog_for_button(JogButton::Forward), (Axis::Tray, false));
}

#[test]
fn camera_failure_trims_unicode_white_space() {
    assert_eq!(
        camera_failure_message(CameraOutcome::CommandFailed, "\u{3000}\t busy\u{a0}x \u{85}\u{2029}".as_bytes(), "x.png").as_deref(),
        Some("libcamera-still failed: busy\u{a0}x")
    );
    assert_eq!(
        camera_failure_message(CameraOutcome::CommandFailed, "\u{200b}z\u{200b}".as_bytes(), "x.png").as_deref(),
        Some("libcamera-still failed: \u{200b}z\u{200b}")
    );
    assert_eq!(
        camera_failure_message(CameraOutcome::CommandFailed, b" \n\r ", "x.png").as_deref(),
        Some("libcamera-still failed: ")
    );
}
