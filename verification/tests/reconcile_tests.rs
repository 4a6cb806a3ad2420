use assoc::config::TabsConfig;
use assoc::data::process_runner::ProcessOutput;
use assoc::event::FileChange;
use assoc::keys::Command;
use assoc::model::process::{ProcessStatus, TicketSource};
use assoc::reconcile::{
    poll_due, refresh_for, wait_timeout, PollTimes, Reconciler, RefreshOp, TickPlan, Tracker,
    Trackers,
};

const ALL: Trackers = Trackers { github_prs: true, github_issues: true, jira: true, linear: true };

#[test]
fn each_change_calls_for_one_refresh() {
    assert_eq!(refresh_for(&FileChange::SessionIndex), RefreshOp::Sessions);
    assert_eq!(refresh_for(&FileChange::Transcript("a".into())), RefreshOp::Transcript);
    assert_eq!(
        refresh_for(&FileChange::SubagentTranscript("a".into())),
        RefreshOp::SubagentTranscript
    );
    assert_eq!(refresh_for(&FileChange::TeamConfig("t".into())), RefreshOp::Teams);
    assert_eq!(refresh_for(&FileChange::TeamInbox("t".into(), "".into())), RefreshOp::Inbox);
    assert_eq!(refresh_for(&FileChange::TaskFile("t".into())), RefreshOp::Tasks);
    assert_eq!(refresh_for(&FileChange::TodoFile("f".into())), RefreshOp::Todos);
    assert_eq!(refresh_for(&FileChange::GitChange), RefreshOp::Git);
    assert_eq!(refresh_for(&FileChange::PlanFile("p".into())), RefreshOp::Plans);
}

#[test]
fn redraw_only_when_dirty() {
    let mut r = Reconciler::new(0);
    assert!(r.take_redraw());
    assert!(!r.take_redraw());
    // A change calls for a refresh; the screen is out of date only where
    // the refresh changed something.
    assert_eq!(r.on_change(&FileChange::GitChange), RefreshOp::Git);
    assert!(!r.take_redraw());
    r.refreshed(false);
    assert!(!r.take_redraw());
    r.refreshed(true);
    r.refreshed(false);
    assert!(r.take_redraw());
    assert!(!r.take_redraw());
}

#[test]
fn keys_without_meaning_do_not_redraw() {
    let mut r = Reconciler::new(0);
    assert!(r.take_redraw());
    r.on_key(Command::Ignore);
    assert!(!r.take_redraw());
    r.on_key(Command::Down);
    r.on_key(Command::Ignore);
    assert!(r.take_redraw());
    r.on_key(Command::EditorInput);
    assert!(r.take_redraw());
    assert!(!r.take_redraw());
}

#[test]
fn idle_ticks_do_not_redraw() {
    let tabs = TabsConfig::default();
    let mut r = Reconciler::new(0);
    assert!(r.take_redraw());
    for n in 1..5 {
        let plan = r.on_tick(n * 250, &tabs, ALL);
        assert_eq!(
            plan,
            TickPlan { github_prs: false, github_issues: false, jira: false, linear: false }
        );
        assert_eq!(r.last_tick, n * 250);
        assert!(!r.take_redraw());
    }
    // A tick keeps what is pending.
    r.refreshed(true);
    r.on_tick(2_000, &tabs, ALL);
    assert!(r.take_redraw());
}

#[test]
fn process_messages_dirty_the_screen_only_when_they_change_a_record() {
    let mut r = Reconciler::new(0);
    let id = r.processes.reserve_id().unwrap();
    assert!(r.processes.start(id, "L".into(), "t".into(), TicketSource::GitHubPR, "p".into(), "/".into()));
    assert!(r.take_redraw());
    assert!(!r.on_process_output(ProcessOutput::Stdout(99, "x".into())));
    assert!(!r.take_redraw());
    assert!(r.on_process_output(ProcessOutput::Stdout(id, "x".into())));
    assert!(r.take_redraw());
    assert!(r.on_process_output(ProcessOutput::Exited(id, false)));
    assert_eq!(r.processes.processes[0].status, ProcessStatus::Failed);
    assert!(r.take_redraw());
    assert!(!r.on_process_output(ProcessOutput::Exited(id, true)));
    assert_eq!(r.processes.processes[0].status, ProcessStatus::Failed);
    assert!(!r.take_redraw());
}

#[test]
fn lines_after_an_exit_reach_the_record_and_the_screen() {
    let mut r = Reconciler::new(0);
    let id = r.processes.reserve_id().unwrap();
    assert!(r.processes.start(id, "L".into(), "t".into(), TicketSource::Jira, "p".into(), "/".into()));
    assert!(r.on_process_output(ProcessOutput::Exited(id, true)));
    assert!(r.take_redraw());
    assert!(r.on_process_output(ProcessOutput::Stdout(id, "tail".into())));
    assert!(r.take_redraw());
    assert_eq!(r.processes.processes[0].output_lines.back().unwrap(), "tail");
    assert_eq!(r.processes.processes[0].status, ProcessStatus::Completed);
    // A run of messages as the channel hands them over.
    assert!(r.on_process_outputs(vec![
        ProcessOutput::Stderr(id, "e1".into()),
        ProcessOutput::Stdout(id, "o2".into()),
        ProcessOutput::Stderr(id, "e2".into()),
    ]));
    assert!(r.take_redraw());
    let p = &r.processes.processes[0];
    assert_eq!(p.output_lines.iter().map(|s| s.as_str()).collect::<Vec<_>>(), vec!["tail", "o2"]);
    assert_eq!(p.error_lines.iter().map(|s| s.as_str()).collect::<Vec<_>>(), vec!["e1", "e2"]);
    assert!(!r.on_process_outputs(vec![ProcessOutput::Stdout(99, "x".into())]));
    assert!(!r.take_redraw());
    // After a kill nothing more is taken.
    let other = r.processes.reserve_id().unwrap();
    assert!(r.processes.start(other, "M".into(), "t".into(), TicketSource::Jira, "p".into(), "/".into()));
    assert_eq!(r.processes.kill(1), Some(other));
    r.take_redraw();
    assert!(!r.on_process_outputs(vec![ProcessOutput::Stdout(other, "late".into())]));
    assert!(r.processes.processes[1].output_lines.is_empty());
}

#[test]
fn polls_are_due_after_the_interval() {
    assert!(!poll_due(59_999, 0, 60_000));
    assert!(poll_due(60_000, 0, 60_000));
    assert!(poll_due(1_060_000, 1_000_000, 60_000));
    assert!(!poll_due(5, 10, 0));
    assert!(poll_due(10, 10, 0));
}

#[test]
fn wait_is_what_is_left_of_the_tick() {
    assert_eq!(wait_timeout(250, 0), 250);
    assert_eq!(wait_timeout(250, 100), 150);
    assert_eq!(wait_timeout(250, 250), 0);
    assert_eq!(wait_timeout(250, 900), 0);
}

#[test]
fn tick_plans_the_polls_that_are_due() {
    let tabs = TabsConfig::default();
    let mut r = Reconciler::new(1_000);
    assert!(!r.tick_due(1_100, 250));
    assert!(r.tick_due(1_250, 250));
    let none = TickPlan { github_prs: false, github_issues: false, jira: false, linear: false };
    assert!(r.take_redraw());
    assert_eq!(r.on_tick(1_250, &tabs, ALL), none);
    assert_eq!(r.last_tick, 1_250);
    assert!(!r.take_redraw());
    let all = TickPlan { github_prs: true, github_issues: true, jira: true, linear: true };
    assert_eq!(r.on_tick(61_000, &tabs, ALL), all);
    // Until a poll is recorded it stays due.
    assert_eq!(r.on_tick(61_250, &tabs, ALL), all);
    r.record_poll(Tracker::Jira, 61_250);
    r.record_poll(Tracker::GitHubPrs, 61_250);
    assert_eq!(
        r.last_poll,
        PollTimes { github_prs: 61_250, github_issues: 1_000, jira: 61_250, linear: 1_000 }
    );
    assert_eq!(
        r.on_tick(61_500, &tabs, ALL),
        TickPlan { github_prs: false, github_issues: true, jira: false, linear: true }
    );
}

#[test]
fn disabled_or_unreachable_trackers_are_not_polled() {
    let mut tabs = TabsConfig::default();
    tabs.linear = Some(false);
    let reach = Trackers { github_prs: true, github_issues: false, jira: true, linear: true };
    let mut r = Reconciler::new(0);
    assert_eq!(
        r.on_tick(100_000, &tabs, reach),
        TickPlan { github_prs: true, github_issues: false, jira: true, linear: false }
    );
}
