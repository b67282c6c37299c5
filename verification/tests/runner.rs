use deploy::error::DeployError;
use deploy::runner::{channel_plan, conclude, ChannelOp, CommandResult, OutputCollector, OutputMode};

#[test]
fn plan_without_input_still_signals_end_of_input() {
    assert_eq!(
        channel_plan(&[]),
        vec![
            ChannelOp::Open,
            ChannelOp::MergeStreams,
            ChannelOp::Exec,
            ChannelOp::SendEof,
            ChannelOp::Drain,
            ChannelOp::WaitClose,
            ChannelOp::Close,
            ChannelOp::ReadExitStatus,
        ]
    );
}

#[test]
fn plan_with_input_writes_it_before_end_of_input() {
    assert_eq!(
        channel_plan(b"archive bytes"),
        vec![
            ChannelOp::Open,
            ChannelOp::MergeStreams,
            ChannelOp::Exec,
            ChannelOp::WriteInput,
            ChannelOp::SendEof,
            ChannelOp::Drain,
            ChannelOp::WaitClose,
            ChannelOp::Close,
            ChannelOp::ReadExitStatus,
        ]
    );
}

#[test]
fn capture_returns_the_trimmed_output() {
    assert_eq!(
        conclude(OutputMode::Capture, "mktemp -d", 0, b"/tmp/tmp.Xyz123\n".to_vec()),
        Ok(CommandResult { exit_status: 0, captured_output: "/tmp/tmp.Xyz123".to_string() })
    );
}

#[test]
fn passthrough_returns_an_empty_capture() {
    assert_eq!(
        conclude(OutputMode::Passthrough, "true", 0, b"ignored".to_vec()),
        Ok(CommandResult { exit_status: 0, captured_output: String::new() })
    );
}

#[test]
fn non_zero_status_fails_with_the_captured_output_as_it_came() {
    assert_eq!(
        conclude(OutputMode::Capture, "false", 1, b" boom \n".to_vec()),
        Err(DeployError::RemoteExec {
            command: "false".to_string(),
            status: 1,
            output: Some(" boom \n".to_string()),
        })
    );
    assert_eq!(
        conclude(OutputMode::Dual, "false", 2, Vec::new()),
        Err(DeployError::RemoteExec {
            command: "false".to_string(),
            status: 2,
            output: Some(String::new()),
        })
    );
}

#[test]
fn passthrough_failure_carries_no_output() {
    let failure = conclude(OutputMode::Passthrough, "false", 3, b"shown live".to_vec());
    assert_eq!(
        failure,
        Err(DeployError::RemoteExec { command: "false".to_string(), status: 3, output: None })
    );
    assert_eq!(failure.unwrap_err().message(), "`false` returned exit status 3");
}

#[test]
fn negative_status_is_a_failure() {
    assert_eq!(
        conclude(OutputMode::Capture, "x", -1, Vec::new()),
        Err(DeployError::RemoteExec {
            command: "x".to_string(),
            status: -1,
            output: Some(String::new()),
        })
    );
}

#[test]
fn captured_output_that_is_not_utf8_is_a_transport_failure() {
    let expected = Err(DeployError::Transport {
        message: "stream did not contain valid UTF-8".to_string(),
    });
    assert_eq!(conclude(OutputMode::Capture, "cat", 0, vec![0x66, 0xff, 0x6f]), expected);
    assert_eq!(conclude(OutputMode::Dual, "cat", 1, vec![0xc3]), expected);
    assert_eq!(
        conclude(OutputMode::Passthrough, "cat", 0, vec![0xff]),
        Ok(CommandResult { exit_status: 0, captured_output: String::new() })
    );
}

#[test]
fn captured_output_is_decoded_as_utf8() {
    assert_eq!(
        conclude(OutputMode::Capture, "echo", 0, "  grüße 🌍\n".as_bytes().to_vec()),
        Ok(CommandResult { exit_status: 0, captured_output: "grüße 🌍".to_string() })
    );
}

fn feed(mode: OutputMode, chunks: &[&[u8]]) -> (OutputCollector, Vec<u8>) {
    let mut collector = OutputCollector::new(mode);
    let mut live = Vec::new();
    for chunk in chunks {
        let (next, echo) = collector.accept(chunk);
        if echo {
            live.extend_from_slice(chunk);
        }
        collector = next;
    }
    (collector, live)
}

#[test]
fn dual_mode_gives_both_sinks_the_same_bytes() {
    let chunks: [&[u8]; 4] = [b"  building ", b"", b"the system\n", b"done \n"];
    let (collector, live) = feed(OutputMode::Dual, &chunks);
    assert_eq!(live.len(), 28);
    assert_eq!(collector.captured_len(), live.len());
    let result = collector.finish("sudo nixos-rebuild switch", 0).unwrap();
    assert_eq!(result.captured_output, String::from_utf8(live).unwrap().trim());
    assert_eq!(result.captured_output, "building the system\ndone");
}

#[test]
fn capture_mode_shows_nothing() {
    let chunks: [&[u8]; 2] = [b"/tmp/", b"tmp.abc\n"];
    let (collector, live) = feed(OutputMode::Capture, &chunks);
    assert!(live.is_empty());
    assert_eq!(collector.captured_len(), 13);
    assert_eq!(collector.finish("mktemp -d", 0).unwrap().captured_output, "/tmp/tmp.abc");
}

#[test]
fn passthrough_mode_collects_nothing() {
    let chunks: [&[u8]; 2] = [b"log line\n", b"another\n"];
    let (collector, live) = feed(OutputMode::Passthrough, &chunks);
    assert_eq!(live, b"log line\nanother\n");
    assert_eq!(collector.captured_len(), 0);
    assert_eq!(
        collector.finish("make", 0),
        Ok(CommandResult { exit_status: 0, captured_output: String::new() })
    );
}

#[test]
fn modes_say_what_they_do_with_output() {
    assert!(OutputMode::Capture.is_capturing() && !OutputMode::Capture.is_echoing());
    assert!(!OutputMode::Passthrough.is_capturing() && OutputMode::Passthrough.is_echoing());
    assert!(OutputMode::Dual.is_capturing() && OutputMode::Dual.is_echoing());
}
