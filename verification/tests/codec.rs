use async_serialization::{
    run_reader, run_writer, AsyncDeserialize, AsyncSerialize, AsyncSerializeLen,
    AsyncSerializeRef, AsyncSerializeRefLen, AsyncWriterFuture, AsyncWriterFutureLen,
    ByteSink, ByteSource, DeserializeError, ReaderRun, ReaderStep, ScriptedSink, ScriptedSource,
    ShortInput, SinkAction, SourceAction, TransportError, U16LeDeserializer, U16LeRefSerializer,
    U16LeSerializer, WriterRun, WriterStep,
};

#[test]
fn serialize_300_two_bytes_little_endian() {
    let sink = ScriptedSink::accepting();
    let op: U16LeSerializer<ScriptedSink> = U16LeSerializer::from_val(sink, 300);
    assert_eq!(op.already_written(), 0);
    match op.step() {
        WriterStep::Completed(sink, written) => {
            assert_eq!(written, 2);
            assert_eq!(sink.bytes(), &vec![44u8, 1]);
        }
        _ => panic!("an accepting sink must complete in one advancement"),
    }
}

#[test]
fn deserialize_300_from_two_bytes() {
    let src = ScriptedSource::new(vec![44, 1], Vec::new());
    let op: U16LeDeserializer<ScriptedSource> = U16LeDeserializer::from_reader(src);
    assert_eq!(op.already_read(), 0);
    match op.step() {
        ReaderStep::Completed(src, value, read) => {
            assert_eq!(value, 300);
            assert_eq!(read, 2);
            assert!(src.remaining().is_empty());
        }
        _ => panic!("a live source with two bytes must complete in one advancement"),
    }
}

#[test]
fn round_trip_through_into_source() {
    for value in [0u16, 1, 255, 256, 300, 0x1234, u16::MAX] {
        let sink = ScriptedSink::accepting();
        let op: U16LeSerializer<ScriptedSink> = U16LeSerializer::from_val(sink, value);
        let (sink, written) = match op.step() {
            WriterStep::Completed(sink, written) => (sink, written),
            _ => panic!("serialization must complete"),
        };
        let op: U16LeDeserializer<ScriptedSource> =
            U16LeDeserializer::from_reader(sink.into_source());
        match op.step() {
            ReaderStep::Completed(_, decoded, read) => {
                assert_eq!(decoded, value);
                assert_eq!(read, written);
            }
            _ => panic!("deserialization must complete"),
        }
    }
}

#[test]
fn suspension_preserves_progress_and_resumes() {
    let sink = ScriptedSink::new(vec![
        SinkAction::Block,
        SinkAction::Accept,
        SinkAction::Block,
        SinkAction::Accept,
    ]);
    let op: U16LeSerializer<ScriptedSink> = U16LeSerializer::from_val(sink, 300);
    let op = match op.step() {
        WriterStep::Suspended(op) => op,
        _ => panic!("first advancement must suspend"),
    };
    assert_eq!(op.already_written(), 0);
    let op = match op.step() {
        WriterStep::Suspended(op) => op,
        _ => panic!("second advancement must suspend after one byte"),
    };
    assert_eq!(op.already_written(), 1);
    assert_eq!(op.remaining_bytes(), 1);
    match op.step() {
        WriterStep::Completed(sink, written) => {
            assert_eq!(written, 2);
            assert_eq!(sink.bytes(), &vec![44u8, 1]);
        }
        _ => panic!("third advancement must complete"),
    }
}

#[test]
fn write_failure_returns_sink_and_partial_bytes() {
    let sink = ScriptedSink::new(vec![
        SinkAction::Accept,
        SinkAction::Fail(TransportError { code: 7 }),
    ]);
    let op: U16LeSerializer<ScriptedSink> = U16LeSerializer::from_val(sink, 300);
    match op.step() {
        WriterStep::Failed(sink, err) => {
            assert_eq!(err, TransportError { code: 7 });
            assert_eq!(sink.bytes(), &vec![44u8]);
        }
        _ => panic!("the scripted failure must surface"),
    }
}

#[test]
fn end_of_input_after_one_byte_is_a_data_error() {
    let src = ScriptedSource::new(vec![44], Vec::new());
    let op: U16LeDeserializer<ScriptedSource> = U16LeDeserializer::from_reader(src);
    match op.step() {
        ReaderStep::Failed(src, err) => {
            assert_eq!(
                err,
                DeserializeError::DataError(ShortInput { have: 1, need: 2 })
            );
            assert!(src.remaining().is_empty());
        }
        _ => panic!("a source that ends early must fail"),
    }
}

#[test]
fn empty_source_is_a_data_error() {
    let src = ScriptedSource::new(Vec::new(), Vec::new());
    let op: U16LeDeserializer<ScriptedSource> = U16LeDeserializer::from_reader(src);
    match op.step() {
        ReaderStep::Failed(_, err) => {
            assert_eq!(
                err,
                DeserializeError::DataError(ShortInput { have: 0, need: 2 })
            );
        }
        _ => panic!("an empty source must fail"),
    }
}

#[test]
fn transport_failure_is_a_reader_error() {
    let src = ScriptedSource::new(
        vec![44, 1],
        vec![
            SourceAction::Deliver,
            SourceAction::Fail(TransportError { code: 11 }),
        ],
    );
    let op: U16LeDeserializer<ScriptedSource> = U16LeDeserializer::from_reader(src);
    match op.step() {
        ReaderStep::Failed(src, err) => {
            assert_eq!(err, DeserializeError::ReaderError(TransportError { code: 11 }));
            assert_eq!(src.remaining(), &vec![1u8]);
        }
        _ => panic!("the scripted transport failure must surface"),
    }
}

#[test]
fn error_tags_are_distinguishable() {
    let transport: DeserializeError<ShortInput> =
        DeserializeError::ReaderError(TransportError { code: 1 });
    let data: DeserializeError<ShortInput> =
        DeserializeError::DataError(ShortInput { have: 0, need: 2 });
    assert!(matches!(transport, DeserializeError::ReaderError(_)));
    assert!(matches!(data, DeserializeError::DataError(_)));
    assert_ne!(transport, data);
}

#[test]
fn reader_suspension_preserves_progress() {
    let src = ScriptedSource::new(vec![44, 1], vec![SourceAction::Deliver, SourceAction::Block]);
    let op: U16LeDeserializer<ScriptedSource> = U16LeDeserializer::from_reader(src);
    let op = match op.step() {
        ReaderStep::Suspended(op) => op,
        _ => panic!("the scripted block must suspend the operation"),
    };
    assert_eq!(op.already_read(), 1);
    match op.step() {
        ReaderStep::Completed(_, value, read) => {
            assert_eq!(value, 300);
            assert_eq!(read, 2);
        }
        _ => panic!("the resumed operation must complete"),
    }
}

#[test]
fn length_precomputation_agrees_with_bytes_written() {
    let total = <U16LeSerializer<ScriptedSink> as AsyncSerializeLen<ScriptedSink>>::total_bytes(
        &40000,
    );
    let sink = ScriptedSink::accepting();
    let op: U16LeSerializer<ScriptedSink> = U16LeSerializer::from_val(sink, 40000);
    assert_eq!(op.remaining_bytes(), total);
    match op.step() {
        WriterStep::Completed(_, written) => assert_eq!(written, total),
        _ => panic!("serialization must complete"),
    }
}

#[test]
fn by_reference_serializes_the_same_value_twice() {
    let value: u16 = 0xabcd;
    let total =
        <U16LeRefSerializer<ScriptedSink> as AsyncSerializeRefLen<ScriptedSink>>::total_bytes(
            &value,
        );
    assert_eq!(total, 2);
    for _ in 0..2 {
        let sink = ScriptedSink::accepting();
        let op: U16LeRefSerializer<ScriptedSink> = U16LeRefSerializer::from_ref(sink, &value);
        match op.step() {
            WriterStep::Completed(sink, written) => {
                assert_eq!(written, 2);
                assert_eq!(sink.bytes(), &vec![0xcdu8, 0xab]);
            }
            _ => panic!("serialization must complete"),
        }
    }
    assert_eq!(value, 0xabcd);
}

#[test]
fn run_writer_finishes_with_fuel_one_on_ready_sink() {
    let sink = ScriptedSink::accepting();
    let op: U16LeSerializer<ScriptedSink> = U16LeSerializer::from_val(sink, 300);
    match run_writer(op, 1) {
        WriterRun::Finished(sink, written) => {
            assert_eq!(written, 2);
            assert_eq!(sink.bytes(), &vec![44u8, 1]);
        }
        _ => panic!("an accepting sink must finish within one advancement"),
    }
}

#[test]
fn run_writer_runs_out_of_fuel_and_resumes() {
    let sink = ScriptedSink::new(vec![
        SinkAction::Block,
        SinkAction::Block,
        SinkAction::Block,
        SinkAction::Accept,
        SinkAction::Accept,
    ]);
    let op: U16LeSerializer<ScriptedSink> = U16LeSerializer::from_val(sink, 300);
    let op = match run_writer(op, 3) {
        WriterRun::OutOfFuel(op) => op,
        _ => panic!("three blocked advancements must exhaust fuel three"),
    };
    assert_eq!(op.already_written(), 0);
    match run_writer(op, 1) {
        WriterRun::Finished(sink, written) => {
            assert_eq!(written, 2);
            assert_eq!(sink.bytes(), &vec![44u8, 1]);
        }
        _ => panic!("the resumed run must finish"),
    }
}

#[test]
fn run_writer_surfaces_transport_failure() {
    let sink = ScriptedSink::new(vec![SinkAction::Fail(TransportError { code: 3 })]);
    let op: U16LeSerializer<ScriptedSink> = U16LeSerializer::from_val(sink, 300);
    match run_writer(op, 5) {
        WriterRun::Errored(sink, err) => {
            assert_eq!(err, TransportError { code: 3 });
            assert!(sink.bytes().is_empty());
        }
        _ => panic!("the scripted failure must surface"),
    }
}

#[test]
fn run_reader_finishes_with_fuel_one_on_live_source() {
    let src = ScriptedSource::new(vec![44, 1], Vec::new());
    let op: U16LeDeserializer<ScriptedSource> = U16LeDeserializer::from_reader(src);
    match run_reader(op, 1) {
        ReaderRun::Finished(src, value, read) => {
            assert_eq!(value, 300);
            assert_eq!(read, 2);
            assert!(src.remaining().is_empty());
        }
        _ => panic!("a live source must finish within one advancement"),
    }
}

#[test]
fn run_reader_never_conflates_error_families() {
    let live_but_short = ScriptedSource::new(vec![44], Vec::new());
    let op: U16LeDeserializer<ScriptedSource> = U16LeDeserializer::from_reader(live_but_short);
    match run_reader(op, 4) {
        ReaderRun::Errored(_, DeserializeError::DataError(short)) => {
            assert_eq!(short, ShortInput { have: 1, need: 2 });
        }
        _ => panic!("a live but short source must give a data error"),
    }
    let failing = ScriptedSource::new(vec![44, 1], vec![SourceAction::Fail(TransportError {
        code: 9,
    })]);
    let op: U16LeDeserializer<ScriptedSource> = U16LeDeserializer::from_reader(failing);
    match run_reader(op, 4) {
        ReaderRun::Errored(_, DeserializeError::ReaderError(err)) => {
            assert_eq!(err, TransportError { code: 9 });
        }
        _ => panic!("a failing transport must give a reader error"),
    }
}

#[test]
fn transport_error_converts_into_reader_error() {
    let err: DeserializeError<ShortInput> = DeserializeError::from(TransportError { code: 5 });
    assert_eq!(err, DeserializeError::ReaderError(TransportError { code: 5 }));
}

#[test]
fn run_reader_runs_out_of_fuel_and_resumes() {
    let src = ScriptedSource::new(
        vec![44, 1],
        vec![SourceAction::Block, SourceAction::Block, SourceAction::Deliver],
    );
    let op: U16LeDeserializer<ScriptedSource> = U16LeDeserializer::from_reader(src);
    let op = match run_reader(op, 2) {
        ReaderRun::OutOfFuel(op) => op,
        _ => panic!("two blocked advancements must exhaust fuel two"),
    };
    assert_eq!(op.already_read(), 0);
    match run_reader(op, 1) {
        ReaderRun::Finished(_, value, read) => {
            assert_eq!(value, 300);
            assert_eq!(read, 2);
        }
        _ => panic!("the resumed run must finish"),
    }
}
