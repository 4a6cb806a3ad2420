use std::collections::VecDeque;

use assoc::data::process_runner::{
    exit_report, headless_args, raw_args, ProcessOutput, ProcessTable,
};
use assoc::model::process::{
    push_capped, ProcessStatus, SpawnedProcess, TicketSource, MAX_PROCESS_OUTPUT_LINES,
};

fn started(table: &mut ProcessTable) -> usize {
    let id = table.reserve_id().unwrap();
    assert!(table.start(
        id,
        format!("T-{}", id),
        "title".to_string(),
        TicketSource::Jira,
        "do it".to_string(),
        "/w".to_string(),
    ));
    id
}

#[test]
fn ring_buffer_bound() {
    let mut buf: VecDeque<String> = VecDeque::new();
    for n in 0..10 {
        push_capped(&mut buf, format!("l{}", n), 3);
        assert!(buf.len() <= 3);
    }
    assert_eq!(buf, VecDeque::from(vec!["l7".to_string(), "l8".to_string(), "l9".to_string()]));
}

#[test]
fn ring_buffer_with_no_room_stays_empty() {
    let mut buf: VecDeque<String> = VecDeque::new();
    push_capped(&mut buf, "a".to_string(), 0);
    assert!(buf.is_empty());
}

#[test]
fn ring_buffer_over_its_cap_is_cut_down() {
    let mut buf: VecDeque<String> = (0..5).map(|n| n.to_string()).collect();
    push_capped(&mut buf, "5".to_string(), 2);
    assert_eq!(buf, VecDeque::from(vec!["4".to_string(), "5".to_string()]));
}

#[test]
fn record_buffers_are_capped() {
    let mut p = SpawnedProcess::new(
        1,
        "L".to_string(),
        "t".to_string(),
        TicketSource::Manual,
        "p".to_string(),
        "/".to_string(),
    );
    for n in 0..(MAX_PROCESS_OUTPUT_LINES + 5) {
        assert!(p.push_stdout(n.to_string()));
    }
    assert_eq!(p.output_lines.len(), MAX_PROCESS_OUTPUT_LINES);
    assert_eq!(p.output_lines.front().unwrap(), "5");
    assert_eq!(p.output_lines.back().unwrap(), &(MAX_PROCESS_OUTPUT_LINES + 4).to_string());
    assert!(p.error_lines.is_empty());
}

#[test]
fn ids_are_handed_out_in_order() {
    let mut table = ProcessTable::new();
    assert_eq!(table.reserve_id(), Some(1));
    assert_eq!(table.reserve_id(), Some(2));
    assert_eq!(table.next_process_id, 3);
    table.next_process_id = usize::MAX;
    assert_eq!(table.reserve_id(), None);
    assert_eq!(table.next_process_id, usize::MAX);
}

#[test]
fn a_record_needs_a_fresh_id() {
    let mut table = ProcessTable::new();
    let a = started(&mut table);
    let b = started(&mut table);
    assert_eq!((a, b), (1, 2));
    // Not handed out yet.
    assert!(!table.start(9, "x".into(), "x".into(), TicketSource::Linear, "x".into(), "x".into()));
    // Already taken.
    assert!(!table.start(2, "x".into(), "x".into(), TicketSource::Linear, "x".into(), "x".into()));
    assert_eq!(table.processes.len(), 2);
    assert_eq!(table.processes[1].label, "T-2");
    assert_eq!(table.processes[1].status, ProcessStatus::Running);
    assert_eq!(table.position(2), Some(1));
    assert_eq!(table.position(7), None);
}

#[test]
fn output_goes_to_the_record_with_the_id() {
    let mut table = ProcessTable::new();
    let a = started(&mut table);
    let b = started(&mut table);
    assert!(table.apply(ProcessOutput::Stdout(b, "out".to_string())));
    assert!(table.apply(ProcessOutput::Stderr(a, "err".to_string())));
    assert!(table.processes[0].output_lines.is_empty());
    assert_eq!(table.processes[0].error_lines, VecDeque::from(vec!["err".to_string()]));
    assert_eq!(table.processes[1].output_lines, VecDeque::from(vec!["out".to_string()]));
}

#[test]
fn messages_for_unknown_ids_are_dropped() {
    let mut table = ProcessTable::new();
    started(&mut table);
    assert!(!table.apply(ProcessOutput::Stdout(42, "x".to_string())));
    assert!(!table.apply(ProcessOutput::Exited(42, true)));
    assert!(table.processes[0].output_lines.is_empty());
    assert_eq!(table.processes[0].status, ProcessStatus::Running);
}

#[test]
fn sticky_terminal_state() {
    let mut table = ProcessTable::new();
    let a = started(&mut table);
    let b = started(&mut table);
    assert!(table.apply(ProcessOutput::Exited(a, true)));
    assert_eq!(table.processes[0].status, ProcessStatus::Completed);
    assert!(!table.apply(ProcessOutput::Exited(a, false)));
    assert!(!table.mark_exited(a, false));
    assert_eq!(table.processes[0].status, ProcessStatus::Completed);
    assert!(table.mark_exited(b, false));
    assert_eq!(table.processes[1].status, ProcessStatus::Failed);
    assert!(!table.mark_exited(b, true));
    assert_eq!(table.processes[1].status, ProcessStatus::Failed);
}

#[test]
fn kill_marks_failed_whatever_the_exit() {
    let mut table = ProcessTable::new();
    let a = started(&mut table);
    let b = started(&mut table);
    // An index beyond the end selects the last record.
    assert_eq!(table.kill(10), Some(b));
    assert_eq!(table.processes[1].status, ProcessStatus::Failed);
    assert_eq!(table.processes[0].status, ProcessStatus::Running);
    assert!(!table.apply(ProcessOutput::Exited(b, true)));
    assert_eq!(table.processes[1].status, ProcessStatus::Failed);
    // Killing it again does nothing.
    assert_eq!(table.kill(1), None);
    // Output that trails in after the end is not taken.
    assert!(!table.apply(ProcessOutput::Stdout(b, "late".to_string())));
    assert!(table.processes[1].output_lines.is_empty());
    assert_eq!(table.kill(0), Some(a));
    assert_eq!(ProcessTable::new().kill(0), None);
}

#[test]
fn agent_arguments() {
    assert_eq!(raw_args("fix it"), vec!["-p", "fix it", "--dangerously-skip-permissions"]);
    assert_eq!(
        headless_args("fix it"),
        vec![
            "-p",
            "fix it",
            "--dangerously-skip-permissions",
            "--output-format",
            "stream-json",
            "--verbose",
        ]
    );
}

#[test]
fn output_after_an_exit_is_still_taken() {
    let mut table = ProcessTable::new();
    let a = started(&mut table);
    let b = started(&mut table);
    assert!(table.apply(ProcessOutput::Stdout(a, "first".to_string())));
    assert!(table.apply(ProcessOutput::Exited(a, true)));
    assert_eq!(table.processes[0].status, ProcessStatus::Completed);
    assert!(table.apply(ProcessOutput::Stdout(a, "last".to_string())));
    assert!(table.apply(ProcessOutput::Stderr(a, "warn".to_string())));
    assert_eq!(
        table.processes[0].output_lines,
        VecDeque::from(vec!["first".to_string(), "last".to_string()])
    );
    assert_eq!(table.processes[0].error_lines, VecDeque::from(vec!["warn".to_string()]));
    assert_eq!(table.processes[0].status, ProcessStatus::Completed);
    assert!(!table.processes[0].killed);
    // The same after a failure that the process reported itself.
    assert!(table.apply(ProcessOutput::Exited(b, false)));
    assert!(table.apply(ProcessOutput::Stderr(b, "why".to_string())));
    assert_eq!(table.processes[1].error_lines, VecDeque::from(vec!["why".to_string()]));
    assert_eq!(table.processes[1].status, ProcessStatus::Failed);
}

#[test]
fn an_ended_record_keeps_the_latest_lines() {
    let mut p = SpawnedProcess::new(
        3,
        "T-3".to_string(),
        "title".to_string(),
        TicketSource::Linear,
        "p".to_string(),
        "/w".to_string(),
    );
    assert!(p.push_stdout("kept".to_string()));
    assert!(p.mark_exited(true));
    let extra: usize = 5;
    for n in 0..MAX_PROCESS_OUTPUT_LINES + extra {
        assert!(p.push_stdout(n.to_string()));
        assert!(p.push_stderr(format!("e{}", n)));
    }
    assert_eq!(p.output_lines.len(), MAX_PROCESS_OUTPUT_LINES);
    assert_eq!(p.error_lines.len(), MAX_PROCESS_OUTPUT_LINES);
    assert_eq!(p.output_lines.front().unwrap(), &extra.to_string());
    assert_eq!(
        p.output_lines.back().unwrap(),
        &(MAX_PROCESS_OUTPUT_LINES + extra - 1).to_string()
    );
    assert_eq!(p.error_lines.front().unwrap(), &format!("e{}", extra));
    assert_eq!(p.status, ProcessStatus::Completed);
}

#[test]
fn a_killed_record_takes_no_more_lines() {
    let mut p = SpawnedProcess::new(
        1,
        "T-1".to_string(),
        "title".to_string(),
        TicketSource::Jira,
        "p".to_string(),
        "/w".to_string(),
    );
    assert!(!p.killed);
    assert!(p.push_stdout("a".to_string()));
    assert!(p.mark_killed());
    assert!(p.killed);
    assert_eq!(p.status, ProcessStatus::Failed);
    assert!(!p.push_stdout("b".to_string()));
    assert!(!p.push_stderr("c".to_string()));
    assert_eq!(p.output_lines, VecDeque::from(vec!["a".to_string()]));
    assert!(p.error_lines.is_empty());
    // Killing a process that has ended by itself leaves it as it is.
    let mut q = SpawnedProcess::new(
        2,
        "T-2".to_string(),
        "title".to_string(),
        TicketSource::Jira,
        "p".to_string(),
        "/w".to_string(),
    );
    assert!(q.mark_exited(true));
    assert!(!q.mark_killed());
    assert!(!q.killed);
    assert_eq!(q.status, ProcessStatus::Completed);
    assert!(q.push_stdout("d".to_string()));
}

#[test]
fn a_run_of_messages_is_taken_in_order() {
    let mut table = ProcessTable::new();
    let a = started(&mut table);
    let b = started(&mut table);
    let c = started(&mut table);
    assert_eq!(table.kill(2), Some(c));
    let changed = table.apply_all(vec![
        ProcessOutput::Stdout(a, "a1".to_string()),
        ProcessOutput::Stderr(b, "b-err".to_string()),
        ProcessOutput::Exited(a, true),
        ProcessOutput::Stdout(a, "a2".to_string()),
        ProcessOutput::Stdout(77, "nobody".to_string()),
        ProcessOutput::Stdout(c, "dropped".to_string()),
        ProcessOutput::Exited(a, false),
        ProcessOutput::Stdout(a, "a3".to_string()),
    ]);
    assert!(changed);
    assert_eq!(
        table.processes[0].output_lines,
        VecDeque::from(vec!["a1".to_string(), "a2".to_string(), "a3".to_string()])
    );
    assert_eq!(table.processes[0].status, ProcessStatus::Completed);
    assert_eq!(table.processes[1].error_lines, VecDeque::from(vec!["b-err".to_string()]));
    assert_eq!(table.processes[1].status, ProcessStatus::Running);
    assert!(table.processes[2].output_lines.is_empty());
    assert_eq!(table.processes[2].status, ProcessStatus::Failed);
    // Messages that change nothing: for nobody, for a killed process, a second exit.
    assert!(!table.apply_all(vec![
        ProcessOutput::Stdout(77, "x".to_string()),
        ProcessOutput::Stderr(c, "x".to_string()),
        ProcessOutput::Exited(a, false),
        ProcessOutput::Exited(c, true),
    ]));
    assert!(!table.apply_all(Vec::new()));
}

#[test]
fn an_exit_is_reported_once_the_readers_have_ended() {
    assert!(matches!(exit_report(4, Some(true), true), Some(ProcessOutput::Exited(4, true))));
    assert!(matches!(exit_report(4, Some(false), true), Some(ProcessOutput::Exited(4, false))));
    assert!(exit_report(4, Some(true), false).is_none());
    assert!(exit_report(4, None, true).is_none());
    assert!(exit_report(4, None, false).is_none());
}

#[test]
fn a_new_record_knows_no_session() {
    let mut table = ProcessTable::new();
    let a = started(&mut table);
    assert_eq!(table.processes[0].id, a);
    assert_eq!(table.processes[0].session_id, None);
    assert!(table.processes[0].progress_lines.is_empty());
    assert!(!table.processes[0].killed);
    assert!(table.apply(ProcessOutput::Stdout(a, "x".to_string())));
    assert_eq!(table.processes[0].session_id, None);
    assert!(table.processes[0].progress_lines.is_empty());
}
