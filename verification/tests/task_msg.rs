use hash_graph::task_msg::{GroupIndex, TaskId, TaskMsg};

#[test]
fn group_index_stores_little_endian_bytes() {
    let g = GroupIndex::new(0x0102_0304_0506_0708);
    assert_eq!(g.0, [0x08, 0x07, 0x06, 0x05, 0x04, 0x03, 0x02, 0x01]);
}

#[test]
fn group_index_reads_back_written_value() {
    for x in [0u64, 1, 255, 256, 0xdead_beef, u64::MAX, 1 << 63] {
        assert_eq!(GroupIndex::new(x).inner(), x);
    }
}

#[test]
fn group_index_reads_little_endian_bytes() {
    let g = GroupIndex([1, 0, 0, 0, 0, 0, 0, 0x80]);
    assert_eq!(g.inner(), 0x8000_0000_0000_0001);
}

#[test]
fn group_index_set_inner_overwrites() {
    let mut g = GroupIndex::new(7);
    g.set_inner(0x0a0b);
    assert_eq!(g.0, [0x0b, 0x0a, 0, 0, 0, 0, 0, 0]);
    assert_eq!(g.inner(), 0x0a0b);
}

#[test]
fn group_index_default_is_zero() {
    let g = GroupIndex::default();
    assert_eq!(g.0, [0; 8]);
    assert_eq!(g.inner(), 0);
}

#[test]
fn task_id_stores_twos_complement_bytes() {
    let mut items = [0i8; 16];
    items[0] = -1;
    items[1] = -128;
    items[2] = 127;
    items[15] = 5;
    let t = TaskId::new(&items);
    let mut expected = [0u8; 16];
    expected[0] = 0xff;
    expected[1] = 0x80;
    expected[2] = 0x7f;
    expected[15] = 5;
    assert_eq!(t.0, expected);
}

#[test]
fn task_id_reads_back_written_items() {
    let mut items = [0i8; 16];
    for (i, item) in items.iter_mut().enumerate() {
        *item = (i as i8) * 9 - 70;
    }
    assert_eq!(TaskId::new(&items).inner(), items);
}

#[test]
fn task_id_reads_signed_bytes() {
    let t = TaskId([0xfe; 16]);
    assert_eq!(t.inner(), [-2i8; 16]);
}

#[test]
fn task_id_set_inner_and_default() {
    let mut t = TaskId::default();
    assert_eq!(t.0, [0; 16]);
    assert_eq!(t.inner(), [0; 16]);
    t.set_inner(&[-3; 16]);
    assert_eq!(t.0, [0xfd; 16]);
}

#[test]
fn group_index_rewriting_read_value_keeps_bytes() {
    let bytes = [0x11, 0x22, 0x33, 0x44, 0x55, 0x66, 0x77, 0x88];
    let g = GroupIndex(bytes);
    assert_eq!(GroupIndex::new(g.inner()).0, bytes);
}

#[test]
fn task_id_rewriting_read_items_keeps_bytes() {
    let mut bytes = [0u8; 16];
    for (i, b) in bytes.iter_mut().enumerate() {
        *b = (i as u8).wrapping_mul(37);
    }
    let t = TaskId(bytes);
    assert_eq!(TaskId::new(&t.inner()).0, bytes);
}

/// Builds a `TaskMsg` buffer the way the generated builder lays it out: the
/// structs are copied byte by byte with alignment 1, the payload is a table.
fn task_msg_buffer(package_sid: u64, task_id: [u8; 16], group_index: Option<[u8; 8]>) -> Vec<u8> {
    let mut fbb = flatbuffers::FlatBufferBuilder::new();
    let payload_start = fbb.start_table();
    let payload = fbb.end_table(payload_start);
    let start = fbb.start_table();
    fbb.push_slot::<u64>(4, package_sid, 0);
    fbb.push_slot_always(14, payload);
    if let Some(bytes) = group_index {
        for b in bytes[1..].iter().rev() {
            fbb.push(*b);
        }
        fbb.push_slot_always::<u8>(10, bytes[0]);
    }
    for b in task_id[1..].iter().rev() {
        fbb.push(*b);
    }
    fbb.push_slot_always::<u8>(6, task_id[0]);
    let root = fbb.end_table(start);
    fbb.finish(root, None);
    fbb.finished_data().to_vec()
}

const TASK_BYTES: [u8; 16] = [1, 2, 3, 4, 5, 6, 7, 8, 9, 10, 11, 12, 13, 14, 15, 0xff];

#[test]
fn task_msg_reads_its_fields() {
    let buf = task_msg_buffer(42, TASK_BYTES, Some(7u64.to_le_bytes()));
    let msg = TaskMsg::from_bytes(buf).expect("a built message is accepted");
    assert_eq!(msg.package_sid(), 42);
    assert_eq!(msg.task_id().0, TASK_BYTES);
    assert_eq!(msg.task_id().inner()[15], -1);
    assert_eq!(msg.group_index().map(|g| g.inner()), Some(7));
}

#[test]
fn task_msg_defaults() {
    let buf = task_msg_buffer(0, TASK_BYTES, None);
    let msg = TaskMsg::from_bytes(buf).expect("a built message is accepted");
    assert_eq!(msg.package_sid(), 0);
    assert!(msg.group_index().is_none());
}

#[test]
fn task_msg_rejects_broken_buffers() {
    assert!(TaskMsg::from_bytes(vec![]).is_none());
    assert!(TaskMsg::from_bytes(vec![1, 2, 3]).is_none());
    // The root offset points past the end of the buffer.
    assert!(TaskMsg::from_bytes(vec![200, 0, 0, 0, 0, 0, 0, 0]).is_none());
    // Cut inside the root table.
    let mut buf = task_msg_buffer(42, TASK_BYTES, None);
    buf.truncate(12);
    assert!(TaskMsg::from_bytes(buf).is_none());
}

#[test]
fn task_msg_needs_task_id_and_payload() {
    let mut fbb = flatbuffers::FlatBufferBuilder::new();
    let start = fbb.start_table();
    fbb.push_slot::<u64>(4, 9, 0);
    let root = fbb.end_table(start);
    fbb.finish(root, None);
    assert!(TaskMsg::from_bytes(fbb.finished_data().to_vec()).is_none());
}
