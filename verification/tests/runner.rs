use xcys::runner::{on_child_event, ChildEvent, RunError, RunnerAction};

#[test]
fn each_line_is_written_as_it_comes() {
    assert_eq!(
        on_child_event(ChildEvent::Line("hello".to_string())),
        RunnerAction::Write("hello".to_string())
    );
    assert_eq!(on_child_event(ChildEvent::Line(String::new())), RunnerAction::Write(String::new()));
}

#[test]
fn n_lines_give_n_writes_in_order_and_then_the_end() {
    let lines = ["one", "two", "", "four"];
    let mut events: Vec<ChildEvent> =
        lines.iter().map(|l| ChildEvent::Line(l.to_string())).collect();
    events.push(ChildEvent::End);
    let actions: Vec<RunnerAction> = events.into_iter().map(on_child_event).collect();
    assert_eq!(
        actions,
        vec![
            RunnerAction::Write("one".to_string()),
            RunnerAction::Write("two".to_string()),
            RunnerAction::Write(String::new()),
            RunnerAction::Write("four".to_string()),
            RunnerAction::Finish(Ok(())),
        ]
    );
}

#[test]
fn the_end_of_the_output_ends_the_run_well() {
    assert_eq!(on_child_event(ChildEvent::End), RunnerAction::Finish(Ok(())));
}

#[test]
fn a_failed_spawn_ends_the_run_with_a_spawn_error() {
    assert_eq!(
        on_child_event(ChildEvent::SpawnFailed("No such file or directory".to_string())),
        RunnerAction::Finish(Err(RunError::Spawn("No such file or directory".to_string())))
    );
}

#[test]
fn a_failed_read_ends_the_run_with_a_child_io_error() {
    assert_eq!(
        on_child_event(ChildEvent::ReadFailed("stream did not contain valid UTF-8".to_string())),
        RunnerAction::Finish(Err(RunError::ChildIo(
            "stream did not contain valid UTF-8".to_string()
        )))
    );
}

#[test]
fn a_run_error_gives_its_text() {
    assert_eq!(RunError::Spawn("not found".to_string()).message(), "not found");
    assert_eq!(RunError::ChildIo("broken pipe".to_string()).message(), "broken pipe");
}
