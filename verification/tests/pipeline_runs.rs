use hdr_pipeline::command::Invocation;
use hdr_pipeline::outcome::{conclude, ProcessOutcome};
use hdr_pipeline::pipeline::{pipeline, Action, Pipeline};
use hdr_pipeline::stage::Stage;

fn strings(texts: &[&str]) -> Vec<String> {
    texts.iter().map(|text| String::from(*text)).collect()
}

fn start(
    images: &[&str],
    diameter: &str,
    xleft: &str,
    ydown: &str,
    xdim: &str,
    ydim: &str,
) -> Pipeline {
    pipeline(
        String::from("/opt/radiance/bin/"),
        String::from("/opt/hdrgen/bin/"),
        String::from("/home/user/out/"),
        String::from("/tmp/work/"),
        strings(images),
        String::from("camera.rsp"),
        String::from(diameter),
        String::from(xleft),
        String::from(ydown),
        String::from(xdim),
        String::from(ydim),
    )
}

fn usual() -> Pipeline {
    start(&["a.JPG", "b.JPG", "c.JPG"], "3612", "1019", "74", "1000", "1000")
}

fn ok() -> ProcessOutcome {
    ProcessOutcome::Exited(0)
}

/// Plays a run against tools that end as `outcomes` says, one outcome for
/// each command in turn, and returns the commands that were run together
/// with the result.
fn play(
    mut run: Pipeline,
    outcomes: Vec<ProcessOutcome>,
) -> (Vec<Invocation>, Result<String, String>) {
    let mut commands = Vec::new();
    let mut outcomes = outcomes.into_iter();
    loop {
        match run.action() {
            Action::Invoke(command) => {
                commands.push(command);
                let outcome = outcomes.next().expect("more tools were started than expected");
                run.record(outcome);
            }
            Action::Finish(result) => return (commands, result),
        }
    }
}

fn programs(commands: &[Invocation]) -> Vec<&str> {
    commands.iter().map(|command| command.program.as_str()).collect()
}

#[test]
fn run_starts_with_the_merge_command() {
    let run = usual();
    assert_eq!(
        run.action(),
        Action::Invoke(Invocation {
            program: String::from("/opt/hdrgen/bin/hdrgen"),
            arguments: strings(&[
                "a.JPG",
                "b.JPG",
                "c.JPG",
                "-o",
                "/tmp/work/output1.hdr",
                "-r",
                "camera.rsp",
                "-a",
                "-e",
                "-f",
                "-g",
            ]),
            stdout: None,
        })
    );
}

#[test]
fn asking_for_the_action_changes_nothing() {
    let run = usual();
    let first = run.action();
    let second = run.action();
    assert_eq!(first, second);
}

#[test]
fn all_tools_succeed_gives_the_fourth_file() {
    let (commands, result) = play(usual(), vec![ok(), ok(), ok(), ok()]);
    assert_eq!(result, Ok(String::from("/tmp/work/output4.hdr")));
    assert_eq!(
        programs(&commands),
        vec![
            "/opt/hdrgen/bin/hdrgen",
            "/opt/radiance/bin/ra_xyze",
            "/opt/radiance/bin/pcompos",
            "/opt/radiance/bin/pfilt",
        ]
    );
}

#[test]
fn all_tools_succeed_runs_the_four_commands_in_order() {
    let (commands, _) = play(usual(), vec![ok(), ok(), ok(), ok()]);
    assert_eq!(commands.len(), 4);
    assert_eq!(
        commands[1],
        Invocation {
            program: String::from("/opt/radiance/bin/ra_xyze"),
            arguments: strings(&["-r", "-o", "/tmp/work/output1.hdr"]),
            stdout: Some(String::from("/tmp/work/output2.hdr")),
        }
    );
    assert_eq!(
        commands[2],
        Invocation {
            program: String::from("/opt/radiance/bin/pcompos"),
            arguments: strings(&[
                "-x",
                "3612",
                "-y",
                "3612",
                "/tmp/work/output2.hdr",
                "-1019",
                "-74",
            ]),
            stdout: Some(String::from("/tmp/work/output3.hdr")),
        }
    );
    assert_eq!(
        commands[3],
        Invocation {
            program: String::from("/opt/radiance/bin/pfilt"),
            arguments: strings(&["-1", "-x", "1000", "-y", "1000", "/tmp/work/output3.hdr"]),
            stdout: Some(String::from("/tmp/work/output4.hdr")),
        }
    );
}

#[test]
fn each_stage_reads_what_the_stage_before_wrote() {
    let (commands, _) = play(usual(), vec![ok(), ok(), ok(), ok()]);
    assert_eq!(commands[0].arguments[4], "/tmp/work/output1.hdr");
    assert_eq!(commands[1].arguments[2], "/tmp/work/output1.hdr");
    assert_eq!(commands[1].stdout.as_deref(), Some("/tmp/work/output2.hdr"));
    assert_eq!(commands[2].arguments[4], "/tmp/work/output2.hdr");
    assert_eq!(commands[2].stdout.as_deref(), Some("/tmp/work/output3.hdr"));
    assert_eq!(commands[3].arguments[5], "/tmp/work/output3.hdr");
    assert_eq!(commands[3].stdout.as_deref(), Some("/tmp/work/output4.hdr"));
}

#[test]
fn merge_failure_stops_the_run() {
    let (commands, result) = play(usual(), vec![ProcessOutcome::Exited(1)]);
    assert_eq!(programs(&commands), vec!["/opt/hdrgen/bin/hdrgen"]);
    assert_eq!(
        result,
        Err(String::from("merge exposures: /opt/hdrgen/bin/hdrgen exited with status 1"))
    );
}

#[test]
fn merge_failure_is_returned_as_merge_gave_it() {
    let outcome = ProcessOutcome::SpawnFailed(String::from("Permission denied"));
    let expected = conclude(
        Stage::Merge,
        "/opt/hdrgen/bin/hdrgen",
        "/tmp/work/output1.hdr",
        &outcome,
    );
    let (_, result) = play(usual(), vec![outcome]);
    assert!(result.is_err());
    assert_eq!(result, expected);
}

#[test]
fn nullify_failure_stops_the_run() {
    let (commands, result) = play(usual(), vec![ok(), ProcessOutcome::Exited(3)]);
    assert_eq!(
        programs(&commands),
        vec!["/opt/hdrgen/bin/hdrgen", "/opt/radiance/bin/ra_xyze"]
    );
    assert_eq!(
        result,
        conclude(
            Stage::Nullify,
            "/opt/radiance/bin/ra_xyze",
            "/tmp/work/output2.hdr",
            &ProcessOutcome::Exited(3),
        )
    );
    assert_eq!(
        result,
        Err(String::from(
            "nullify exposure value: /opt/radiance/bin/ra_xyze exited with status 3"
        ))
    );
}

#[test]
fn crop_failure_stops_the_run() {
    let (commands, result) = play(usual(), vec![ok(), ok(), ProcessOutcome::Terminated]);
    assert_eq!(
        programs(&commands),
        vec![
            "/opt/hdrgen/bin/hdrgen",
            "/opt/radiance/bin/ra_xyze",
            "/opt/radiance/bin/pcompos",
        ]
    );
    assert_eq!(
        result,
        conclude(
            Stage::Crop,
            "/opt/radiance/bin/pcompos",
            "/tmp/work/output3.hdr",
            &ProcessOutcome::Terminated,
        )
    );
    assert_eq!(
        result,
        Err(String::from("crop: /opt/radiance/bin/pcompos ended without an exit status"))
    );
}

#[test]
fn resize_failure_is_the_result_of_the_run() {
    let outcome = ProcessOutcome::SpawnFailed(String::from("No such file or directory"));
    let same = ProcessOutcome::SpawnFailed(String::from("No such file or directory"));
    let (commands, result) = play(usual(), vec![ok(), ok(), ok(), same]);
    assert_eq!(commands.len(), 4);
    assert_eq!(
        result,
        conclude(Stage::Resize, "/opt/radiance/bin/pfilt", "/tmp/work/output4.hdr", &outcome)
    );
    assert_eq!(
        result,
        Err(String::from(
            "resize: could not start /opt/radiance/bin/pfilt: No such file or directory"
        ))
    );
}

#[test]
fn bad_diameter_does_not_fail_before_crop() {
    let mut run = start(&["a.JPG"], "not a number", "1019", "74", "1000", "1000");
    match run.action() {
        Action::Invoke(command) => assert_eq!(command.program, "/opt/hdrgen/bin/hdrgen"),
        Action::Finish(result) => panic!("run ended before merge: {:?}", result),
    }
    run.record(ok());
    match run.action() {
        Action::Invoke(command) => assert_eq!(command.program, "/opt/radiance/bin/ra_xyze"),
        Action::Finish(result) => panic!("run ended before nullify: {:?}", result),
    }
    run.record(ok());
    assert_eq!(
        run.action(),
        Action::Finish(Err(String::from("crop: invalid diameter: not a number")))
    );
}

#[test]
fn bad_diameter_fails_at_crop_without_starting_its_tool() {
    let run = start(&["a.JPG"], "12 px", "1019", "74", "1000", "1000");
    let (commands, result) = play(run, vec![ok(), ok()]);
    assert_eq!(
        programs(&commands),
        vec!["/opt/hdrgen/bin/hdrgen", "/opt/radiance/bin/ra_xyze"]
    );
    assert_eq!(result, Err(String::from("crop: invalid diameter: 12 px")));
}

#[test]
fn bad_diameter_does_not_hide_a_merge_failure() {
    let run = start(&["a.JPG"], "", "", "", "", "");
    let (commands, result) = play(run, vec![ProcessOutcome::Exited(1)]);
    assert_eq!(commands.len(), 1);
    assert_eq!(
        result,
        Err(String::from("merge exposures: /opt/hdrgen/bin/hdrgen exited with status 1"))
    );
}

#[test]
fn bad_corner_fails_at_crop() {
    let run = start(&["a.JPG"], "3612", "left", "74", "1000", "1000");
    let (commands, result) = play(run, vec![ok(), ok()]);
    assert_eq!(commands.len(), 2);
    assert_eq!(result, Err(String::from("crop: invalid xleft: left")));

    let run = start(&["a.JPG"], "3612", "1019", "7.4", "1000", "1000");
    let (commands, result) = play(run, vec![ok(), ok()]);
    assert_eq!(commands.len(), 2);
    assert_eq!(result, Err(String::from("crop: invalid ydown: 7.4")));
}

#[test]
fn bad_dimension_fails_at_resize_after_crop_has_run() {
    let run = start(&["a.JPG"], "3612", "1019", "74", "wide", "1000");
    let (commands, result) = play(run, vec![ok(), ok(), ok()]);
    assert_eq!(
        programs(&commands),
        vec![
            "/opt/hdrgen/bin/hdrgen",
            "/opt/radiance/bin/ra_xyze",
            "/opt/radiance/bin/pcompos",
        ]
    );
    assert_eq!(result, Err(String::from("resize: invalid xdim: wide")));

    let run = start(&["a.JPG"], "3612", "1019", "74", "1000", "-1");
    let (commands, result) = play(run, vec![ok(), ok(), ok()]);
    assert_eq!(commands.len(), 3);
    assert_eq!(result, Err(String::from("resize: invalid ydim: -1")));
}

#[test]
fn bad_dimension_does_not_hide_a_crop_failure() {
    let run = start(&["a.JPG"], "3612", "1019", "74", "wide", "high");
    let (commands, result) = play(run, vec![ok(), ok(), ProcessOutcome::Exited(1)]);
    assert_eq!(commands.len(), 3);
    assert_eq!(
        result,
        Err(String::from("crop: /opt/radiance/bin/pcompos exited with status 1"))
    );
}

#[test]
fn empty_image_list_still_runs_merge() {
    let run = start(&[], "3612", "1019", "74", "1000", "1000");
    assert_eq!(
        run.action(),
        Action::Invoke(Invocation {
            program: String::from("/opt/hdrgen/bin/hdrgen"),
            arguments: strings(&[
                "-o",
                "/tmp/work/output1.hdr",
                "-r",
                "camera.rsp",
                "-a",
                "-e",
                "-f",
                "-g",
            ]),
            stdout: None,
        })
    );
}

#[test]
fn empty_image_list_propagates_what_merge_reports() {
    let run = start(&[], "3612", "1019", "74", "1000", "1000");
    let (commands, result) = play(run, vec![ProcessOutcome::Exited(1)]);
    assert_eq!(commands.len(), 1);
    assert_eq!(
        result,
        Err(String::from("merge exposures: /opt/hdrgen/bin/hdrgen exited with status 1"))
    );

    let run = start(&[], "3612", "1019", "74", "1000", "1000");
    let (commands, result) = play(run, vec![ok(), ok(), ok(), ok()]);
    assert_eq!(commands.len(), 4);
    assert_eq!(result, Ok(String::from("/tmp/work/output4.hdr")));
}

#[test]
fn files_depend_on_the_working_directory_alone() {
    let first = usual();
    let second = pipeline(
        String::from("/usr/local/radiance/"),
        String::from("/usr/local/hdrgen/"),
        String::from("/elsewhere/"),
        String::from("/tmp/work/"),
        strings(&["x.JPG"]),
        String::from("other.rsp"),
        String::from("10"),
        String::from("20"),
        String::from("30"),
        String::from("40"),
        String::from("50"),
    );
    let (first_commands, first_result) = play(first, vec![ok(), ok(), ok(), ok()]);
    let (second_commands, second_result) = play(second, vec![ok(), ok(), ok(), ok()]);
    assert_eq!(first_result, second_result);
    assert_eq!(first_commands[0].arguments[4], "/tmp/work/output1.hdr");
    assert_eq!(second_commands[0].arguments[2], "/tmp/work/output1.hdr");
    for stage in 1..4 {
        assert_eq!(first_commands[stage].stdout, second_commands[stage].stdout);
    }
    assert_eq!(first_commands[1].arguments[2], second_commands[1].arguments[2]);
    assert_eq!(first_commands[2].arguments[4], second_commands[2].arguments[4]);
    assert_eq!(first_commands[3].arguments[5], second_commands[3].arguments[5]);
}

#[test]
fn files_follow_the_working_directory() {
    let run = pipeline(
        String::from("/opt/radiance/bin/"),
        String::from("/opt/hdrgen/bin/"),
        String::from("/home/user/out/"),
        String::from("scratch-"),
        strings(&["a.JPG"]),
        String::from("camera.rsp"),
        String::from("1"),
        String::from("2"),
        String::from("3"),
        String::from("4"),
        String::from("5"),
    );
    let (commands, result) = play(run, vec![ok(), ok(), ok(), ok()]);
    assert_eq!(result, Ok(String::from("scratch-output4.hdr")));
    assert_eq!(commands[0].arguments[2], "scratch-output1.hdr");
    assert_eq!(commands[1].stdout.as_deref(), Some("scratch-output2.hdr"));
    assert_eq!(commands[2].stdout.as_deref(), Some("scratch-output3.hdr"));
    assert_eq!(commands[3].stdout.as_deref(), Some("scratch-output4.hdr"));
}

#[test]
fn output_directory_is_not_used() {
    let run = pipeline(
        String::from("/opt/radiance/bin/"),
        String::from("/opt/hdrgen/bin/"),
        String::from("UNUSED-OUTPUT-DIRECTORY"),
        String::from("/tmp/work/"),
        strings(&["a.JPG"]),
        String::from("camera.rsp"),
        String::from("1"),
        String::from("2"),
        String::from("3"),
        String::from("4"),
        String::from("5"),
    );
    let (commands, result) = play(run, vec![ok(), ok(), ok(), ok()]);
    for command in &commands {
        assert!(!command.program.contains("UNUSED"));
        assert!(command.arguments.iter().all(|argument| !argument.contains("UNUSED")));
        assert!(command.stdout.iter().all(|path| !path.contains("UNUSED")));
    }
    assert_eq!(result, Ok(String::from("/tmp/work/output4.hdr")));
}

#[test]
fn finished_run_stays_finished() {
    let mut run = usual();
    run.record(ProcessOutcome::Exited(1));
    let result = run.action();
    assert_eq!(
        result,
        Action::Finish(Err(String::from(
            "merge exposures: /opt/hdrgen/bin/hdrgen exited with status 1"
        )))
    );
    run.record(ok());
    assert_eq!(run.action(), result);
    run.record(ProcessOutcome::Terminated);
    assert_eq!(run.action(), result);
}

#[test]
fn successful_run_stays_finished() {
    let mut run = usual();
    for _ in 0..4 {
        run.record(ok());
    }
    let result = run.action();
    assert_eq!(result, Action::Finish(Ok(String::from("/tmp/work/output4.hdr"))));
    run.record(ProcessOutcome::Exited(1));
    assert_eq!(run.action(), result);
}

#[test]
fn refused_stage_ignores_a_report() {
    let mut run = start(&["a.JPG"], "x", "1", "2", "3", "4");
    run.record(ok());
    run.record(ok());
    let refusal = Action::Finish(Err(String::from("crop: invalid diameter: x")));
    assert_eq!(run.action(), refusal);
    run.record(ok());
    assert_eq!(run.action(), refusal);
}

#[test]
fn run_asks_for_at_most_four_tools() {
    let mut run = usual();
    let mut started = 0;
    while let Action::Invoke(_) = run.action() {
        started += 1;
        assert!(started <= 4);
        run.record(ok());
    }
    assert_eq!(started, 4);
}

fn outcome_of_kind(kind: usize) -> ProcessOutcome {
    match kind {
        0 => ProcessOutcome::Exited(0),
        1 => ProcessOutcome::Exited(1),
        2 => ProcessOutcome::SpawnFailed(String::from("No such file or directory")),
        _ => ProcessOutcome::Terminated,
    }
}

#[test]
fn first_failure_decides_every_run() {
    let stages = [Stage::Merge, Stage::Nullify, Stage::Crop, Stage::Resize];
    let tools = [
        "/opt/hdrgen/bin/hdrgen",
        "/opt/radiance/bin/ra_xyze",
        "/opt/radiance/bin/pcompos",
        "/opt/radiance/bin/pfilt",
    ];
    let files = [
        "/tmp/work/output1.hdr",
        "/tmp/work/output2.hdr",
        "/tmp/work/output3.hdr",
        "/tmp/work/output4.hdr",
    ];
    for code in 0..256 {
        let kinds = [code % 4, code / 4 % 4, code / 16 % 4, code / 64];
        let first_failure = kinds.iter().position(|kind| *kind != 0);
        let started = match first_failure {
            Some(index) => index + 1,
            None => 4,
        };
        let outcomes = kinds[..started].iter().map(|kind| outcome_of_kind(*kind)).collect();
        let (commands, result) = play(usual(), outcomes);
        assert_eq!(programs(&commands), tools[..started].to_vec());
        match first_failure {
            Some(index) => {
                let outcome = outcome_of_kind(kinds[index]);
                let expected = conclude(stages[index], tools[index], files[index], &outcome);
                assert!(expected.is_err());
                assert_eq!(result, expected);
            }
            None => assert_eq!(result, Ok(String::from("/tmp/work/output4.hdr"))),
        }
    }
}

#[test]
fn successful_run_has_started_all_four_tools() {
    for code in 0..256 {
        let kinds = [code % 4, code / 4 % 4, code / 16 % 4, code / 64];
        let mut run = usual();
        let mut started = 0;
        while let Action::Invoke(_) = run.action() {
            run.record(outcome_of_kind(kinds[started]));
            started += 1;
        }
        if let Action::Finish(Ok(path)) = run.action() {
            assert_eq!(path, "/tmp/work/output4.hdr");
            assert_eq!(started, 4);
            assert_eq!(kinds, [0, 0, 0, 0]);
        }
    }
}

#[test]
fn geometry_and_dimensions_do_not_change_merge_and_nullify() {
    let plain = start(&["a.JPG", "b.JPG"], "3612", "1019", "74", "1000", "1000");
    let odd = start(&["a.JPG", "b.JPG"], "", "x", "-", "1e3", "ten");
    let (plain_commands, _) = play(plain, vec![ok(), ProcessOutcome::Exited(1)]);
    let (odd_commands, odd_result) = play(odd, vec![ok(), ProcessOutcome::Exited(1)]);
    assert_eq!(plain_commands, odd_commands);
    assert_eq!(
        odd_result,
        Err(String::from(
            "nullify exposure value: /opt/radiance/bin/ra_xyze exited with status 1"
        ))
    );
}
