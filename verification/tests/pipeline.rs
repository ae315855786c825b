use tickflow::adapters::{RecordingSink, ScriptedSource};
use tickflow::channel::{Channel, RecvOutcome, SendOutcome};
use tickflow::messaging::{Message, SourceEvent};
use tickflow::pipeline::SPSCDataFeed;
use tickflow::processor::MessageProcessor;

#[derive(Debug, Clone, PartialEq, Eq)]
struct TestMessage(&'static str);

impl Message for TestMessage {}

const PLENTY_OF_STEPS: usize = 10_000;

#[test]
fn tickflow_builder_start_processes_batches() {
    let source_batches = vec![
        vec![TestMessage("alpha"), TestMessage("beta")],
        vec![TestMessage("gamma")],
    ];
    let source = ScriptedSource::new(source_batches);
    let sink = RecordingSink::new("collector");

    let mut run = SPSCDataFeed::builder(source, sink)
        .channel_capacity(4)
        .start();
    let done = run.run_to_completion(PLENTY_OF_STEPS);
    assert!(done, "failed to run the data feed to completion");
    assert!(!run.source_failed(), "source task failed unexpectedly");

    let batches = run.sink().handled_batches();
    assert_eq!(batches.len(), 2);
    assert_eq!(batches[0], vec![TestMessage("alpha"), TestMessage("beta")]);
    assert_eq!(batches[1], vec![TestMessage("gamma")]);
}

#[test]
fn message_processor_continues_after_sink_errors() {
    let sink = RecordingSink::with_failures("flaky", 1);
    let mut processor = MessageProcessor::new(sink);
    let mut channel = Channel::new(4);

    let accepted = channel.send(vec![TestMessage("first")]);
    assert!(matches!(accepted, SendOutcome::Accepted), "send first batch");
    let accepted = channel.send(vec![TestMessage("second")]);
    assert!(matches!(accepted, SendOutcome::Accepted), "send second batch");
    channel.close_sender();

    processor.process_messages(&mut channel);

    let batches = processor.sink().handled_batches();
    assert_eq!(batches.len(), 2);
    assert_eq!(batches[0], vec![TestMessage("first")]);
    assert_eq!(batches[1], vec![TestMessage("second")]);
}

#[test]
fn datafeed_completes_when_source_fails_midstream() {
    let source_batches = vec![vec![TestMessage("only")], vec![TestMessage("never sent")]];
    let source = ScriptedSource::new(source_batches).fail_at(1);
    let sink = RecordingSink::new("collector");

    let mut run = SPSCDataFeed::builder(source, sink)
        .channel_capacity(2)
        .start();
    let done = run.run_to_completion(PLENTY_OF_STEPS);
    assert!(done, "failed to run the data feed to completion");
    assert!(run.source_failed(), "source was scripted to fail");

    let batches = run.sink().handled_batches();
    assert_eq!(batches.len(), 1);
    assert_eq!(batches[0], vec![TestMessage("only")]);
}

#[test]
fn sink_observes_batches_whole_and_in_send_order() {
    let source_batches = vec![
        vec![TestMessage("A"), TestMessage("B")],
        vec![TestMessage("C")],
    ];
    let source = ScriptedSource::new(source_batches.clone());
    let sink = RecordingSink::new("orderly");

    let mut run = SPSCDataFeed::new(source, sink, 8).start();
    let done = run.run_to_completion(PLENTY_OF_STEPS);
    assert!(done);
    assert!(!run.source_failed());
    assert_eq!(run.sink().handled_batches(), &source_batches);
}

#[test]
fn source_failure_keeps_batches_already_sent() {
    let source_batches = vec![
        vec![TestMessage("X")],
        vec![TestMessage("Y")],
        vec![TestMessage("never produced")],
    ];
    let source = ScriptedSource::new(source_batches).fail_at(2);
    let sink = RecordingSink::new("collector");

    let mut run = SPSCDataFeed::new(source, sink, 4).start();
    let done = run.run_to_completion(PLENTY_OF_STEPS);
    assert!(done, "processor must still reach end-of-stream");
    assert!(run.source_failed());

    let batches = run.sink().handled_batches();
    assert_eq!(batches.len(), 2);
    assert_eq!(batches[0], vec![TestMessage("X")]);
    assert_eq!(batches[1], vec![TestMessage("Y")]);
}

#[test]
fn failing_sink_still_attempts_every_batch() {
    let source_batches = vec![vec![TestMessage("P")], vec![TestMessage("Q")]];
    let source = ScriptedSource::new(source_batches);
    let sink = RecordingSink::with_failures("flaky", 1);

    let mut run = SPSCDataFeed::new(source, sink, 4).start();
    let done = run.run_to_completion(PLENTY_OF_STEPS);
    assert!(done, "a sink failure must not stop the processor");
    assert!(!run.source_failed());

    let batches = run.sink().handled_batches();
    assert_eq!(batches.len(), 2, "both batches attempted despite one failure");
    assert_eq!(batches[0], vec![TestMessage("P")]);
    assert_eq!(batches[1], vec![TestMessage("Q")]);
    assert_eq!(run.errors_absorbed(), 1);
}

#[test]
fn full_channel_suspends_sends_until_a_recv_makes_room() {
    let mut channel = Channel::new(1);

    let first = channel.send(vec![TestMessage("one")]);
    assert!(matches!(first, SendOutcome::Accepted), "first send fits");

    let second = channel.send(vec![TestMessage("two")]);
    let suspended = match second {
        SendOutcome::Full(batch) => batch,
        _ => panic!("second send must be suspended while the channel is full"),
    };

    match channel.recv() {
        RecvOutcome::Batch(batch) => assert_eq!(batch, vec![TestMessage("one")]),
        _ => panic!("a queued batch must come out"),
    }

    let resumed = channel.send(suspended);
    assert!(
        matches!(resumed, SendOutcome::Accepted),
        "one recv makes room for exactly one send"
    );
}

#[test]
fn backpressured_pipeline_still_delivers_everything_in_order() {
    let source_batches = vec![
        vec![TestMessage("1")],
        vec![TestMessage("2")],
        vec![TestMessage("3")],
    ];
    let source = ScriptedSource::new(source_batches.clone());
    let sink = RecordingSink::new("slow");

    let mut run = SPSCDataFeed::new(source, sink, 1).start();
    let done = run.run_to_completion(PLENTY_OF_STEPS);
    assert!(done);
    assert_eq!(run.sink().handled_batches(), &source_batches);
}

#[test]
fn empty_source_ends_stream_without_error() {
    let source: ScriptedSource<TestMessage> = ScriptedSource::new(Vec::new());
    let sink = RecordingSink::new("idle");

    let mut run = SPSCDataFeed::new(source, sink, 4).start();
    let done = run.run_to_completion(PLENTY_OF_STEPS);
    assert!(done);
    assert!(!run.source_failed());
    assert_eq!(run.sink().handled_batches().len(), 0);
}

#[test]
fn run_budget_of_zero_makes_no_progress_and_resuming_finishes() {
    let source_batches = vec![vec![TestMessage("late")]];
    let source = ScriptedSource::new(source_batches);
    let sink = RecordingSink::new("resumable");

    let mut run = SPSCDataFeed::new(source, sink, 2).start();
    let done = run.run_to_completion(0);
    assert!(!done);
    assert_eq!(run.sink().handled_batches().len(), 0);

    let done = run.run_to_completion(PLENTY_OF_STEPS);
    assert!(done);
    assert_eq!(run.sink().handled_batches(), &vec![vec![TestMessage("late")]]);
}

#[test]
fn sends_after_the_receiver_is_gone_are_rejected() {
    let mut channel = Channel::new(2);
    channel.close_receiver();

    let outcome = channel.send(vec![TestMessage("late")]);
    match outcome {
        SendOutcome::Disconnected(batch) => assert_eq!(batch, vec![TestMessage("late")]),
        _ => panic!("a send without a receiver must be rejected as disconnected"),
    }
}

#[test]
fn processor_counts_the_failures_it_absorbs() {
    let sink = RecordingSink::with_failures("flaky", 2);
    let mut processor = MessageProcessor::new(sink);
    let mut channel = Channel::new(4);

    assert!(matches!(channel.send(vec![TestMessage("a")]), SendOutcome::Accepted));
    assert!(matches!(channel.send(vec![TestMessage("b")]), SendOutcome::Accepted));
    assert!(matches!(channel.send(vec![TestMessage("c")]), SendOutcome::Accepted));
    channel.close_sender();

    processor.process_messages(&mut channel);
    assert_eq!(processor.errors_absorbed(), 2);
    assert_eq!(processor.sink().handled_batches().len(), 3);
}

#[test]
fn builder_defaults_to_a_channel_capacity_of_one_thousand() {
    let source: ScriptedSource<TestMessage> = ScriptedSource::new(Vec::new());
    let sink = RecordingSink::new("sized");

    let feed = SPSCDataFeed::builder(source, sink).build();
    assert_eq!(feed.channel_capacity(), 1000);
}


#[test]
fn applied_source_events_drive_the_run_exactly() {
    let source: ScriptedSource<TestMessage> = ScriptedSource::new(Vec::new());
    let sink = RecordingSink::new("event-driven");
    let mut run = SPSCDataFeed::new(source, sink, 2).start();
    assert!(!run.has_pending_batch());

    run.apply_source_event(SourceEvent::Batch(vec![TestMessage("injected")]));
    assert!(run.has_pending_batch());
    assert!(run.source_running());

    run.step_source();
    assert!(!run.has_pending_batch(), "the pending batch was accepted");

    run.step_processor();
    assert_eq!(run.sink().handled_batches(), &vec![vec![TestMessage("injected")]]);

    run.apply_source_event(SourceEvent::Done);
    assert!(!run.source_running());
    assert!(!run.source_failed());

    run.step_processor();
    assert!(run.is_done());
    assert_eq!(run.errors_absorbed(), 0);
}
