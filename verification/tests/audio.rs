use mcp_gateway::audio::{decode_samples, AudioCommand, AudioState};

#[test]
fn decode_little_endian_pairs() {
    assert_eq!(decode_samples(&vec![0x34, 0x12]), vec![0x1234]);
    assert_eq!(decode_samples(&vec![0xFF, 0xFF]), vec![-1]);
    assert_eq!(decode_samples(&vec![0x00, 0x80]), vec![i16::MIN]);
    assert_eq!(decode_samples(&vec![0x01, 0x02, 0x00, 0x00]), vec![513, 0]);
}

#[test]
fn decode_drops_trailing_unpaired_byte() {
    assert_eq!(decode_samples(&vec![1, 2, 3]), vec![513]);
    assert_eq!(decode_samples(&vec![9]), Vec::<i16>::new());
    assert_eq!(decode_samples(&vec![]), Vec::<i16>::new());
}

#[test]
fn play_commands_queue_in_arrival_order() {
    let mut actor = AudioState::new();
    actor.handle(AudioCommand::Play(vec![0x01, 0x02]));
    actor.handle(AudioCommand::Play(vec![0x00, 0x80, 0xFF, 0xFF]));
    assert_eq!(actor.queued_segments(), &vec![vec![513], vec![i16::MIN, -1]]);
}

#[test]
fn short_play_is_a_noop() {
    let mut actor = AudioState::new();
    actor.handle(AudioCommand::Play(vec![0x01, 0x02]));
    actor.handle(AudioCommand::Play(vec![7]));
    actor.handle(AudioCommand::Play(vec![]));
    assert_eq!(actor.queued_segments(), &vec![vec![513]]);
}

#[test]
fn halt_discards_all_queued_audio() {
    let mut actor = AudioState::new();
    actor.handle(AudioCommand::Play(vec![0x01, 0x02]));
    actor.handle(AudioCommand::Play(vec![0x03, 0x04]));
    actor.handle(AudioCommand::Halt);
    assert_eq!(actor.queued_segments(), &Vec::<Vec<i16>>::new());
}

#[test]
fn playback_resumes_after_halt() {
    let mut actor = AudioState::new();
    actor.handle(AudioCommand::Play(vec![0x01, 0x02]));
    actor.handle(AudioCommand::Halt);
    actor.handle(AudioCommand::Play(vec![0x05, 0x00]));
    assert_eq!(actor.queued_segments(), &vec![vec![5]]);
}

#[test]
fn halt_on_empty_queue_is_harmless() {
    let mut actor = AudioState::new();
    actor.handle(AudioCommand::Halt);
    assert_eq!(actor.queued_segments(), &Vec::<Vec<i16>>::new());
}
