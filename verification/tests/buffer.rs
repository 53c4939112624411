use handoff_buffer::buffer::{Buffer, BufferError, BufferOwner, Guest, Host};
use handoff_buffer::buffer::initiate_buffer;
use handoff_buffer::laws::{flip_twice, write_flip_read};

#[test]
fn read_and_write() {
    let mut writer = Buffer::<Host>::new(10);
    writer.write(&[1u8, 2]).unwrap();
    let mut reader = writer.flip_ownership();
    let r: [u8; 2] = reader.read().unwrap();
    assert_eq!(r, [1, 2]);

    let mut writer = reader.flip_ownership();
    writer.write(&[3u8, 4]).unwrap();
    let mut reader = writer.flip_ownership();
    let r: [u8; 2] = reader.read().unwrap();
    assert_eq!(r, [3, 4]);
}

#[test]
fn read_and_write_bytes() {
    let mut writer = Buffer::<Host>::new(10);
    writer.write(&[1u8, 2]).unwrap();
    let mut reader = writer.flip_ownership();
    let r = reader.read_bytes(2).unwrap();
    assert_eq!(r, &[1, 2]);

    let mut writer = reader.flip_ownership();
    writer.write(&[3u8, 4]).unwrap();
    let mut reader = writer.flip_ownership();
    let r = reader.read_bytes(2).unwrap();
    assert_eq!(r, &[3, 4]);
}

#[test]
fn host_guest_exchange() {
    let mut writer = Buffer::<Host>::new(10);
    writer.write(&[1u8, 2]).unwrap();

    let mut reader = writer.flip_ownership();
    let first = reader.read_bytes(2).unwrap();
    assert_eq!(first, &[1, 2]);
    assert_eq!(reader.read_cursor(), 2);

    let mut writer = reader.flip_ownership();
    writer.write(&[3u8, 4]).unwrap();

    let mut reader = writer.flip_ownership();
    let second = reader.read_bytes(2).unwrap();
    assert_eq!(second, &[3, 4]);
    assert_eq!(reader.read_cursor(), 4);
    assert_eq!(reader.write_cursor(), 4);
}

#[test]
fn write_beyond_free_space_fails() {
    let mut writer = Buffer::<Host>::new(4);
    writer.write(&[1u8, 2, 3]).unwrap();
    assert_eq!(writer.write_cursor(), 3);

    let err = writer.write(&[4u8, 5]).unwrap_err();
    assert_eq!(err, BufferError::BufferFull { requested: 2, free: 1 });
    assert_eq!(writer.write_cursor(), 3);

    let mut reader = writer.flip_ownership();
    assert_eq!(reader.read_bytes(3).unwrap(), &[1, 2, 3]);
}

#[test]
fn write_exactly_capacity_succeeds() {
    let mut writer = Buffer::<Host>::new(4);
    writer.write(&[9u8, 8, 7, 6]).unwrap();
    assert_eq!(writer.write_cursor(), 4);

    let mut reader = writer.flip_ownership();
    assert_eq!(reader.read_bytes(4).unwrap(), &[9, 8, 7, 6]);
}

#[test]
fn write_over_capacity_is_rejected_unchanged() {
    let mut writer = Buffer::<Host>::new(4);
    let err = writer.write(&[1u8, 2, 3, 4, 5]).unwrap_err();
    assert_eq!(err, BufferError::InsufficientCapacity { requested: 5, available: 4 });
    assert_eq!(writer.write_cursor(), 0);

    writer.write(&[1u8, 2, 3, 4]).unwrap();
    assert_eq!(writer.write_cursor(), 4);
}

#[test]
fn read_past_written_bytes_is_rejected_unchanged() {
    let mut writer = Buffer::<Host>::new(8);
    writer.write(&[1u8, 2]).unwrap();

    let mut reader = writer.flip_ownership();
    let err = reader.read_bytes(3).unwrap_err();
    assert_eq!(err, BufferError::BufferUnderflow { requested: 3, readable: 2 });
    assert_eq!(reader.read_cursor(), 0);

    let err = reader.read::<5>().unwrap_err();
    assert_eq!(err, BufferError::BufferUnderflow { requested: 5, readable: 2 });
    assert_eq!(reader.read_cursor(), 0);

    assert_eq!(reader.read_bytes(2).unwrap(), &[1, 2]);
    assert_eq!(reader.read_cursor(), 2);
}

#[test]
fn flips_preserve_state_verbatim() {
    let mut writer = Buffer::<Host>::new(6);
    writer.write(&[5u8, 6, 7]).unwrap();

    let writer = flip_twice(writer);
    assert_eq!(writer.write_cursor(), 3);
    assert_eq!(writer.read_cursor(), 0);
    assert_eq!(writer.capacity(), 6);

    let mut writer = writer;
    writer.write(&[8u8]).unwrap();
    let mut reader = writer.flip_ownership();
    assert_eq!(reader.read_bytes(4).unwrap(), &[5, 6, 7, 8]);
}

#[test]
fn cursors_accumulate_across_writes() {
    let mut writer = Buffer::<Host>::new(10);
    assert_eq!(writer.write_cursor(), 0);
    writer.write(&[1u8]).unwrap();
    assert_eq!(writer.write_cursor(), 1);
    writer.write(&[2u8, 3]).unwrap();
    assert_eq!(writer.write_cursor(), 3);
    writer.write(&[4u8, 5, 6]).unwrap();
    assert_eq!(writer.write_cursor(), 6);
    assert_eq!(writer.read_cursor(), 0);
}

#[test]
fn empty_write_and_read_leave_cursors_alone() {
    let mut writer = Buffer::<Host>::new(3);
    writer.write(&[]).unwrap();
    assert_eq!(writer.write_cursor(), 0);

    let mut reader = writer.flip_ownership();
    assert_eq!(reader.read_bytes(0).unwrap(), &[] as &[u8]);
    assert_eq!(reader.read_cursor(), 0);
}

#[test]
fn full_round_trip_at_capacity() {
    let payload: Vec<u8> = (0u8..10).collect();
    let mut writer = Buffer::<Host>::new(10);
    writer.write(&payload).unwrap();
    let mut reader = writer.flip_ownership();
    assert_eq!(reader.read_bytes(10).unwrap(), payload);
}

#[test]
fn initiate_buffer_zeroes_region_and_cursors() {
    let builder = initiate_buffer(16, 1);
    assert_eq!(builder.size, 16);
    assert_eq!(builder.region.len(), 16);
    assert!(builder.region.iter().all(|b| *b == 0));
    assert_eq!(builder.last_read, 0);
    assert_eq!(builder.last_write, 0);
    assert_eq!(builder.host_writer, 1);

    let builder = initiate_buffer(0, 0);
    assert_eq!(builder.size, 0);
    assert_eq!(builder.region.len(), 0);
    assert_eq!(builder.host_writer, 0);
}

#[test]
fn from_builder_adopts_cursors_verbatim() {
    let mut builder = initiate_buffer(8, 0);
    builder.region[0] = 42;
    builder.region[1] = 43;
    builder.last_write = 2;
    builder.last_read = 1;

    let mut reader = Buffer::<Guest>::from_builder(builder);
    assert_eq!(reader.capacity(), 8);
    assert_eq!(reader.read_cursor(), 1);
    assert_eq!(reader.write_cursor(), 2);
    assert_eq!(reader.read_bytes(1).unwrap(), &[43]);
}

#[test]
fn round_trip_returns_payload_exactly() {
    let writer = Buffer::<Host>::new(6);
    let out = write_flip_read(writer, &[10u8, 20, 30]);
    assert_eq!(out, &[10, 20, 30]);
}

#[test]
fn roles_report_their_side() {
    assert!(Host::host_owner());
    assert!(!Guest::host_owner());
}

#[test]
fn guest_side_handle_starts_fresh() {
    let handle = Buffer::<Guest>::new(5);
    assert_eq!(handle.capacity(), 5);
    assert_eq!(handle.read_cursor(), 0);
    assert_eq!(handle.write_cursor(), 0);
}
