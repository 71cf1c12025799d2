use raw_frame::frame::raw::RawFrame;
use raw_frame::geom::Rect;
use raw_frame::gpu::{Command, CommandEncoder, Device, TextureFormat};
use raw_frame::window::Id;

fn full_hd() -> Rect {
    Rect { x: 0, y: 0, w: 800, h: 600 }
}

fn record_one(frame: &RawFrame, command: Command) {
    frame.command_encoder(|mut e: CommandEncoder| {
        e.record(command);
        e
    });
}

#[test]
fn end_to_end_two_guarded_accesses() {
    let device = Device::new(7);
    let queue = device.queue();
    let texture = device.create_texture_view();
    let frame = RawFrame::new_empty(
        &device,
        &queue,
        Id(1),
        0,
        &texture,
        TextureFormat::Bgra8UnormSrgb,
        full_hd(),
    );
    record_one(&frame, Command::Marker(0xA));
    record_one(&frame, Command::Marker(0xB));
    assert_eq!(frame.window_id(), Id(1));
    assert_eq!(frame.nth(), 0);
    assert_eq!(frame.rect(), full_hd());
    assert_eq!(frame.texture_format(), TextureFormat::Bgra8UnormSrgb);
    let encoder = frame.finish();
    assert_eq!(encoder.commands(), &vec![Command::Marker(0xA), Command::Marker(0xB)]);
    assert_eq!(encoder.device(), 7);
}

#[test]
fn successive_frames_share_no_recording() {
    let device = Device::new(1);
    let queue = device.queue();
    let texture = device.create_texture_view();
    let first = RawFrame::new_empty(
        &device,
        &queue,
        Id(3),
        0,
        &texture,
        TextureFormat::Rgba8Unorm,
        full_hd(),
    );
    record_one(&first, Command::Clear(0x000000ff));
    record_one(&first, Command::Draw(3));
    let first_nth = first.nth();
    let first_batch = first.finish();
    assert_eq!(first_batch.commands().len(), 2);

    let second = RawFrame::new_empty(
        &device,
        &queue,
        Id(3),
        1,
        &texture,
        TextureFormat::Rgba8Unorm,
        full_hd(),
    );
    assert!(second.nth() > first_nth);
    assert_eq!(second.nth(), 1);
    let second_batch = second.finish();
    assert!(second_batch.is_empty());
    assert_eq!(second_batch.commands(), &Vec::<Command>::new());
}

#[test]
fn accessors_return_the_same_values_every_time() {
    let device = Device::new(2);
    let queue = device.queue();
    let texture = device.create_texture_view();
    let rect = Rect { x: -10, y: 20, w: 1024, h: 768 };
    let frame = RawFrame::new_empty(
        &device,
        &queue,
        Id(9),
        41,
        &texture,
        TextureFormat::Rgba8UnormSrgb,
        rect,
    );
    for i in 0..5u64 {
        assert_eq!(frame.window_id(), Id(9));
        assert_eq!(frame.nth(), 41);
        assert_eq!(frame.rect(), rect);
        assert_eq!(frame.texture_format(), TextureFormat::Rgba8UnormSrgb);
        assert_eq!(frame.queue().device(), 2);
        assert_eq!(frame.swap_chain_texture().device(), 2);
        record_one(&frame, Command::Marker(i));
    }
    assert_eq!(frame.finish().commands().len(), 5);
}

#[test]
fn consuming_returns_every_recorded_command() {
    let device = Device::new(4);
    let queue = device.queue();
    let texture = device.create_texture_view();
    let frame = RawFrame::new_empty(
        &device,
        &queue,
        Id(1),
        5,
        &texture,
        TextureFormat::Bgra8Unorm,
        full_hd(),
    );
    frame.command_encoder(|mut e: CommandEncoder| {
        e.record(Command::Clear(0xffffffff));
        e.record(Command::Draw(6));
        e
    });
    record_one(&frame, Command::Marker(1));
    let encoder = frame.finish();
    assert_eq!(
        encoder.commands(),
        &vec![Command::Clear(0xffffffff), Command::Draw(6), Command::Marker(1)]
    );
}

fn markers_in_order(n: u64) {
    let device = Device::new(5);
    let queue = device.queue();
    let texture = device.create_texture_view();
    let frame = RawFrame::new_empty(
        &device,
        &queue,
        Id(1),
        0,
        &texture,
        TextureFormat::Bgra8Unorm,
        full_hd(),
    );
    for i in 0..n {
        record_one(&frame, Command::Marker(i));
    }
    let recorded = frame.finish();
    let expected: Vec<Command> = (0..n).map(Command::Marker).collect();
    assert_eq!(recorded.commands(), &expected);
}

#[test]
fn one_access_records_one_marker() {
    markers_in_order(1);
}

#[test]
fn two_accesses_keep_their_order() {
    markers_in_order(2);
}

#[test]
fn eight_accesses_keep_their_order() {
    markers_in_order(8);
}

#[test]
fn mismatched_devices_are_not_checked() {
    let device_a = Device::new(10);
    let device_b = Device::new(11);
    let queue_a = device_a.queue();
    let texture_b = device_b.create_texture_view();
    let frame = RawFrame::new_empty(
        &device_a,
        &queue_a,
        Id(2),
        3,
        &texture_b,
        TextureFormat::Rgba8Unorm,
        full_hd(),
    );
    assert_eq!(frame.queue().device(), 10);
    assert_eq!(frame.swap_chain_texture().device(), 11);
    record_one(&frame, Command::Draw(3));
    let encoder = frame.finish();
    assert_eq!(encoder.device(), 10);
    assert_eq!(encoder.commands(), &vec![Command::Draw(3)]);
}

#[test]
fn encoder_appends_in_order() {
    let device = Device::new(12);
    assert_eq!(device.id(), 12);
    let mut encoder = device.create_command_encoder();
    assert!(encoder.is_empty());
    assert_eq!(encoder.device(), 12);
    encoder.record(Command::Marker(2));
    encoder.record(Command::Marker(1));
    assert!(!encoder.is_empty());
    assert_eq!(encoder.commands(), &vec![Command::Marker(2), Command::Marker(1)]);
}

#[test]
fn device_hands_out_its_own_queue_and_textures() {
    let device = Device::new(99);
    assert_eq!(device.queue().device(), 99);
    assert_eq!(device.create_texture_view().device(), 99);
}
