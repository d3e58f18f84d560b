use nekostream::ffmpeg::{next_ingest_step, IngestEvent, IngestStep};
use nekostream::ingest::{
    next_listener_step, next_pump_step, ListenerEvent, ListenerStep, PumpEvent, PumpStep,
};

#[test]
fn ffmpeg_loop_retries_after_a_second() {
    assert_eq!(next_ingest_step(IngestEvent::Started, false), IngestStep::RunFfmpeg);
    assert_eq!(
        next_ingest_step(IngestEvent::RunEnded, false),
        IngestStep::WaitThenRetry { millis: 1000 }
    );
    assert_eq!(next_ingest_step(IngestEvent::WaitEnded, false), IngestStep::RunFfmpeg);
}

#[test]
fn ffmpeg_loop_stops_when_asked() {
    for e in [IngestEvent::Started, IngestEvent::RunEnded, IngestEvent::WaitEnded] {
        assert_eq!(next_ingest_step(e, true), IngestStep::Stop);
    }
}

#[test]
fn listener_keeps_serving() {
    assert_eq!(next_listener_step(ListenerEvent::Bound), ListenerStep::AwaitConnection);
    assert_eq!(next_listener_step(ListenerEvent::Accepted), ListenerStep::ServeClient);
    assert_eq!(next_listener_step(ListenerEvent::ClientEnded), ListenerStep::AwaitConnection);
    assert_eq!(next_listener_step(ListenerEvent::AcceptFailed), ListenerStep::Fail);
    assert_eq!(next_listener_step(ListenerEvent::Cancelled), ListenerStep::Stop);
}

#[test]
fn pump_forwards_reads() {
    assert_eq!(next_pump_step(PumpEvent::Read(12)), PumpStep::Forward { len: 12 });
    assert_eq!(next_pump_step(PumpEvent::Read(0)), PumpStep::Finish);
    assert_eq!(next_pump_step(PumpEvent::ReadFailed), PumpStep::Fail);
    assert_eq!(next_pump_step(PumpEvent::Cancelled), PumpStep::Finish);
}
