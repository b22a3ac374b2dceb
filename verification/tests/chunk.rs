use sound_processor::chunk::{first_channel, ChunkAssembler, ChunkStep, ReadOutcome, WhenExhausted};

#[test]
fn assembler_hands_out_full_chunks_in_order() {
    let mut assembler = ChunkAssembler::new(3, WhenExhausted::GiveUp);
    assert_eq!(assembler.feed(ReadOutcome::Sample(1i16)), ChunkStep::NeedMore);
    assert_eq!(assembler.feed(ReadOutcome::Sample(2)), ChunkStep::NeedMore);
    assert_eq!(assembler.pending_len(), 2);
    assert_eq!(assembler.feed(ReadOutcome::Sample(3)), ChunkStep::Complete(vec![1, 2, 3]));
    assert_eq!(assembler.pending_len(), 0);
    assert_eq!(assembler.feed(ReadOutcome::Sample(4)), ChunkStep::NeedMore);
}

#[test]
fn looping_source_restarts_and_keeps_partial_chunk() {
    let mut assembler = ChunkAssembler::new(2, WhenExhausted::Restart);
    assert_eq!(assembler.feed(ReadOutcome::Sample(7u8)), ChunkStep::NeedMore);
    assert_eq!(assembler.feed(ReadOutcome::Exhausted), ChunkStep::Restart);
    assert_eq!(assembler.pending_len(), 1);
    assert_eq!(assembler.feed(ReadOutcome::Sample(8)), ChunkStep::Complete(vec![7, 8]));
}

#[test]
fn ended_stream_abandons_chunk() {
    let mut assembler = ChunkAssembler::new(4, WhenExhausted::GiveUp);
    assembler.feed(ReadOutcome::Sample(0.5f32));
    assert_eq!(assembler.feed(ReadOutcome::Exhausted), ChunkStep::Abandon);
    assert_eq!(assembler.pending_len(), 0);
}

#[test]
fn read_failure_abandons_chunk() {
    let mut assembler = ChunkAssembler::new(4, WhenExhausted::Restart);
    assembler.feed(ReadOutcome::Sample(1i16));
    assembler.feed(ReadOutcome::Sample(2i16));
    assert_eq!(assembler.feed(ReadOutcome::Failed), ChunkStep::Abandon);
    assert_eq!(assembler.pending_len(), 0);
}

#[test]
fn first_channel_takes_first_sample_of_each_frame() {
    assert_eq!(first_channel(&[1, 2, 3, 4, 5, 6], 2), vec![1, 3, 5]);
    assert_eq!(first_channel(&[1, 2, 3, 4, 5, 6, 7], 3), vec![1, 4]);
    assert_eq!(first_channel(&[9, 8, 7], 1), vec![9, 8, 7]);
    assert_eq!(first_channel::<i32>(&[], 2), Vec::<i32>::new());
    assert_eq!(first_channel(&[1], 2), Vec::<i32>::new());
}
