//! The `TaskMsg` table of the engine's FlatBuffers schema and its fixed-size
//! structs.
//!
//! `TaskId` holds sixteen signed bytes and `GroupIndex` one little-endian
//! `u64`.  Both are stored as raw byte arrays, exactly as they appear inside a
//! FlatBuffers buffer; the scalar encoding itself is done by the `flatbuffers`
//! crate.  A `TaskMsg` is a buffer whose root table the `flatbuffers`
//! verifier accepted and whose fields read here lie inside the buffer.
use vstd::prelude::*;
use vstd::bytes::{spec_u32_from_le_bytes, spec_u64_from_le_bytes, spec_u64_to_le_bytes};
use flatbuffers::Follow;

verus! {

/// Writes `items` into `bytes` with `flatbuffers::emplace_scalar_array`.
///
/// For `i8` the crate's `EndianScalar::to_little_endian` is the identity, so
/// each byte of the result is the two's-complement bit pattern of the item.
#[verifier::external_body]
fn emplace_i8_array(bytes: &mut [u8; 16], items: &[i8; 16])
    ensures
        final(bytes)@.len() == 16,
        forall|i: int| 0 <= i < 16 ==> #[trigger] final(bytes)@[i] == items@[i] as u8,
{
    flatbuffers::emplace_scalar_array(bytes, 0, items)
}

/// Reads sixteen `i8` values out of `bytes` with `flatbuffers::Array::follow`
/// and the crate's conversion of an `Array` into a Rust array.
///
/// Each item is the byte at the same position read as a signed value.
#[verifier::external_body]
fn follow_i8_array(bytes: &[u8; 16]) -> (items: [i8; 16])
    ensures
        forall|i: int| 0 <= i < 16 ==> #[trigger] items@[i] == bytes@[i] as i8,
{
    let array = flatbuffers::Array::<i8, 16>::follow(bytes, 0);
    array.into()
}

/// Writes `x` into `bytes` with `flatbuffers::emplace_scalar_array` applied to
/// a one-element array: the crate converts `x` to little endian and copies its
/// eight bytes to the start of the buffer.
#[verifier::external_body]
fn emplace_u64(bytes: &mut [u8; 8], x: u64)
    ensures
        final(bytes)@ == spec_u64_to_le_bytes(x),
{
    flatbuffers::emplace_scalar_array(bytes, 0, &[x])
}

/// Reads a `u64` from `bytes` with the `flatbuffers::Follow` impl for `u64`,
/// which decodes the eight bytes as a little-endian value.
#[verifier::external_body]
fn follow_u64(bytes: &[u8; 8]) -> (x: u64)
    ensures
        x == spec_u64_from_le_bytes(bytes@),
{
    u64::follow(bytes, 0)
}

/// The sixteen signed bytes that `items` occupy in a buffer.
pub open spec fn task_id_bytes(items: Seq<i8>) -> Seq<u8> {
    Seq::new(16, |i: int| items[i] as u8)
}

/// Struct `TaskId` of the schema: sixteen `i8`, aligned to 1.
#[derive(Clone, Copy, Debug, PartialEq, Eq)]
pub struct TaskId(pub [u8; 16]);

impl TaskId {
    /// The sixteen `i8` values that the stored bytes encode.
    pub open spec fn items(&self) -> Seq<i8> {
        Seq::new(16, |i: int| self.0@[i] as i8)
    }

    /// Builds a `TaskId` whose bytes hold `inner`.
    pub fn new(inner: &[i8; 16]) -> (s: Self)
        ensures
            s.0@ == task_id_bytes(inner@),
            s.items() == inner@,
    {
        let mut s = TaskId([0u8; 16]);
        s.set_inner(inner);
        s
    }

    /// The sixteen `i8` values stored in this struct.
    pub fn inner(&self) -> (items: [i8; 16])
        ensures
            items@ == self.items(),
    {
        let items = follow_i8_array(&self.0);
        assert(items@ =~= self.items());
        items
    }

    /// Overwrites the stored bytes with `items`.
    pub fn set_inner(&mut self, items: &[i8; 16])
        ensures
            final(self).0@ == task_id_bytes(items@),
            final(self).items() == items@,
    {
        emplace_i8_array(&mut self.0, items);
        proof {
            assert(self.0@ =~= task_id_bytes(items@));
            assert forall|i: int| 0 <= i < 16 implies #[trigger] self.items()[i] == items@[i] by {
                let x = items@[i];
                assert((x as u8) as i8 == x) by (bit_vector);
            }
            assert(self.items() =~= items@);
        }
    }
}

impl Default for TaskId {
    fn default() -> (s: Self)
        ensures
            s.0@ == Seq::new(16, |i: int| 0u8),
    {
        let s = TaskId([0u8; 16]);
        assert(s.0@ =~= Seq::new(16, |i: int| 0u8));
        s
    }
}

/// Struct `GroupIndex` of the schema: one `u64`, aligned to 8.
#[derive(Clone, Copy, Debug, PartialEq, Eq)]
pub struct GroupIndex(pub [u8; 8]);

impl GroupIndex {
    /// The `u64` that the stored little-endian bytes encode.
    pub open spec fn value(&self) -> u64 {
        spec_u64_from_le_bytes(self.0@)
    }

    /// Builds a `GroupIndex` whose bytes are the little-endian encoding of `inner`.
    pub fn new(inner: u64) -> (s: Self)
        ensures
            s.0@ == spec_u64_to_le_bytes(inner),
            s.value() == inner,
    {
        let mut s = GroupIndex([0u8; 8]);
        s.set_inner(inner);
        s
    }

    /// The `u64` stored in this struct.
    pub fn inner(&self) -> (x: u64)
        ensures
            x == self.value(),
    {
        follow_u64(&self.0)
    }

    /// Overwrites the stored bytes with the little-endian encoding of `x`.
    pub fn set_inner(&mut self, x: u64)
        ensures
            final(self).0@ == spec_u64_to_le_bytes(x),
            final(self).value() == x,
    {
        emplace_u64(&mut self.0, x);
        proof {
            vstd::bytes::lemma_auto_spec_u64_to_from_le_bytes();
        }
    }
}

impl Default for GroupIndex {
    fn default() -> (s: Self)
        ensures
            s.0@ == Seq::new(8, |i: int| 0u8),
            s.value() == 0,
    {
        let s = GroupIndex([0u8; 8]);
        proof {
            lemma_zero_bytes_encode_zero();
        }
        assert(s.0@ =~= Seq::new(8, |i: int| 0u8));
        s
    }
}

/// Eight zero bytes are the little-endian encoding of zero.
proof fn lemma_zero_bytes_encode_zero()
    ensures
        spec_u64_to_le_bytes(0) == Seq::new(8, |i: int| 0u8),
        spec_u64_from_le_bytes(Seq::new(8, |i: int| 0u8)) == 0,
{
    vstd::bytes::spec_u64_to_le_bytes_to_open(0);
    assert((0u64 & 0xff) == 0 && ((0u64 >> 8) & 0xff) == 0 && ((0u64 >> 16) & 0xff) == 0
        && ((0u64 >> 24) & 0xff) == 0 && ((0u64 >> 32) & 0xff) == 0 && ((0u64 >> 40) & 0xff) == 0
        && ((0u64 >> 48) & 0xff) == 0 && ((0u64 >> 56) & 0xff) == 0) by (bit_vector);
    assert(spec_u64_to_le_bytes(0) =~= Seq::new(8, |i: int| 0u8));
    vstd::bytes::lemma_auto_spec_u64_to_from_le_bytes();
}

/// Reading a `GroupIndex` gives back the value that was written into it.
pub proof fn law_group_index_read_after_write(g: GroupIndex, x: u64)
    requires
        g.0@ == spec_u64_to_le_bytes(x),
    ensures
        g.value() == x,
{
    vstd::bytes::lemma_auto_spec_u64_to_from_le_bytes();
}

/// Every byte pattern of a `GroupIndex` is the encoding of the value it reads
/// as: writing back the value read leaves the bytes unchanged.
pub proof fn law_group_index_write_after_read(g: GroupIndex)
    ensures
        spec_u64_to_le_bytes(g.value()) == g.0@,
{
    vstd::bytes::lemma_auto_spec_u64_to_from_le_bytes();
    assert(g.0@.len() == 8);
}

/// Reading a `TaskId` gives back the items that were written into it.
pub proof fn law_task_id_read_after_write(t: TaskId, items: Seq<i8>)
    requires
        items.len() == 16,
        t.0@ == task_id_bytes(items),
    ensures
        t.items() == items,
{
    assert forall|i: int| 0 <= i < 16 implies #[trigger] t.items()[i] == items[i] by {
        let x = items[i];
        assert((x as u8) as i8 == x) by (bit_vector);
    }
    assert(t.items() =~= items);
}

/// Every byte pattern of a `TaskId` is the encoding of the items it reads as:
/// writing back the items read leaves the bytes unchanged.
pub proof fn law_task_id_write_after_read(t: TaskId)
    ensures
        task_id_bytes(t.items()) == t.0@,
{
    assert forall|i: int| 0 <= i < 16 implies #[trigger] task_id_bytes(t.items())[i] == t.0@[i] by {
        let b = t.0@[i];
        assert((b as i8) as u8 == b) by (bit_vector);
    }
    assert(task_id_bytes(t.items()) =~= t.0@);
}

/// The position of the root table, read with the `flatbuffers::Follow` impl
/// of `ForwardsUOffset<Table>` at the start of the buffer: the little-endian
/// `u32` of the first four bytes.
#[verifier::external_body]
fn root_table_loc(buf: &[u8]) -> (loc: usize)
    requires
        buf@.len() >= 4,
    ensures
        loc == spec_u32_from_le_bytes(buf@.subrange(0, 4)),
{
    <flatbuffers::ForwardsUOffset<flatbuffers::Table>>::follow(buf, 0).loc
}

/// Whether the `flatbuffers` verifier accepts a table at `loc`: its signed
/// offset to the vtable, and the vtable, lie inside the buffer and are
/// aligned.
pub uninterp spec fn table_verified(buf: Seq<u8>, loc: usize) -> bool;

/// The entry for the field at the byte offset `slot` in the vtable of the
/// table at `loc`: the field's offset from the table, or 0 when absent.
pub uninterp spec fn vtable_entry(buf: Seq<u8>, loc: usize, slot: u16) -> u16;

/// Whether the four bytes at `loc` hold `i32::MIN`, which the `flatbuffers`
/// verifier cannot negate as a signed offset.
pub open spec fn holds_min_soffset(buf: Seq<u8>, loc: int) -> bool {
    buf[loc] == 0 && buf[loc + 1] == 0 && buf[loc + 2] == 0 && buf[loc + 3] == 0x80
}

/// Runs `flatbuffers::Verifier::visit_table` at `loc` with the default
/// options and tells whether it accepted the table.  The verifier panics
/// (in debug builds) on an aligned signed offset of `i32::MIN` inside the
/// buffer, which `requires` leaves out.
#[verifier::external_body]
fn visit_table(buf: &[u8], loc: usize) -> (ok: bool)
    requires
        loc % 4 == 0 && loc + 4 <= buf@.len() ==> !holds_min_soffset(buf@, loc as int),
    ensures
        ok == table_verified(buf@, loc),
{
    let opts = flatbuffers::VerifierOptions::default();
    let mut verifier = flatbuffers::Verifier::new(&opts, buf);
    verifier.visit_table(loc).is_ok()
}

/// Reads the vtable entry of `slot` for the table at `loc` with
/// `flatbuffers::Table::vtable` and `VTable::get`.  Once the verifier
/// accepted the table, every read of an even `slot` stays inside the
/// vtable, and a buffer shorter than `i32::MAX` keeps the signed offset
/// arithmetic from overflowing.
#[verifier::external_body]
fn read_vtable_entry(buf: &[u8], loc: usize, slot: u16) -> (e: u16)
    requires
        table_verified(buf@, loc),
        buf@.len() <= i32::MAX,
        slot % 2 == 0,
    ensures
        e == vtable_entry(buf@, loc, slot),
{
    flatbuffers::Table::new(buf, loc).vtable().get(slot)
}

/// The vtable slot of the field `package_sid`.
pub const VT_PACKAGE_SID: u16 = 4;
/// The vtable slot of the field `task_id`.
pub const VT_TASK_ID: u16 = 6;
/// The vtable slot of the field `group_index`.
pub const VT_GROUP_INDEX: u16 = 10;
/// The vtable slot of the field `payload`.
pub const VT_PAYLOAD: u16 = 14;

/// The position of the root table of `buf`.
pub open spec fn root_loc(buf: Seq<u8>) -> int {
    spec_u32_from_le_bytes(buf.subrange(0, 4)) as int
}

/// The position of the field at `slot` of the table at `loc`.
pub open spec fn field_pos(buf: Seq<u8>, loc: int, slot: u16) -> int {
    loc + vtable_entry(buf, loc as usize, slot)
}

/// Whether the field at `slot` of the table at `loc` is absent, or its
/// `size` bytes lie inside the buffer at a position aligned to `align`.
pub open spec fn field_fits(buf: Seq<u8>, loc: int, slot: u16, size: int, align: int) -> bool {
    vtable_entry(buf, loc as usize, slot) == 0 || (field_pos(buf, loc, slot) + size <= buf.len() && field_pos(
        buf,
        loc,
        slot,
    ) % align == 0)
}

/// Whether `buf` holds a `TaskMsg` that the fields here can be read from:
/// the verifier accepts its root table; `package_sid` (a `u64`) and
/// `group_index` (eight bytes) fit when present; `task_id` (sixteen bytes)
/// and the offset of `payload` (a `u32`) are present and fit.  The payload's
/// own table, and the fields `target` and `metaversioning`, which nothing
/// here reads, are not checked.
pub open spec fn task_msg_accepted(buf: Seq<u8>) -> bool {
    let loc = root_loc(buf);
    &&& 4 <= buf.len() <= i32::MAX
    &&& loc % 4 == 0 && loc + 4 <= buf.len() ==> !holds_min_soffset(buf, loc)
    &&& table_verified(buf, loc as usize)
    &&& field_fits(buf, loc, VT_PACKAGE_SID, 8, 8)
    &&& vtable_entry(buf, loc as usize, VT_TASK_ID) != 0 && field_fits(buf, loc, VT_TASK_ID, 16, 1)
    &&& field_fits(buf, loc, VT_GROUP_INDEX, 8, 1)
    &&& vtable_entry(buf, loc as usize, VT_PAYLOAD) != 0 && field_fits(buf, loc, VT_PAYLOAD, 4, 4)
}

/// The `package_sid` of the `TaskMsg` in `buf`: the little-endian `u64` of
/// its field, or 0 when absent.
pub open spec fn package_sid_of(buf: Seq<u8>) -> u64 {
    let loc = root_loc(buf);
    if vtable_entry(buf, loc as usize, VT_PACKAGE_SID) == 0 {
        0
    } else {
        let p = field_pos(buf, loc, VT_PACKAGE_SID);
        spec_u64_from_le_bytes(buf.subrange(p, p + 8))
    }
}

/// The required fields `task_id` and `payload` must be present: a buffer
/// whose root table lacks either is not a `TaskMsg`, and neither is one
/// shorter than its root offset.
pub proof fn law_required_fields_present(buf: Seq<u8>)
    ensures
        vtable_entry(buf, root_loc(buf) as usize, VT_PAYLOAD) == 0 ==> !task_msg_accepted(buf),
        vtable_entry(buf, root_loc(buf) as usize, VT_TASK_ID) == 0 ==> !task_msg_accepted(buf),
        buf.len() < 4 ==> !task_msg_accepted(buf),
        task_msg_accepted(buf) ==> table_verified(buf, root_loc(buf) as usize),
{
}

/// In an accepted buffer every field read here lies inside the buffer, at a
/// position after the root table's start: `task_id`'s sixteen bytes, the
/// payload offset's four bytes at a position aligned to 4, and, when
/// present, `package_sid`'s eight bytes at a position aligned to 8 and
/// `group_index`'s eight bytes.
pub proof fn law_accepted_fields_fit(buf: Seq<u8>)
    requires
        task_msg_accepted(buf),
    ensures
        ({
            let loc = root_loc(buf);
            let t = vtable_entry(buf, loc as usize, VT_TASK_ID) as int;
            let p = vtable_entry(buf, loc as usize, VT_PAYLOAD) as int;
            let s = vtable_entry(buf, loc as usize, VT_PACKAGE_SID) as int;
            let g = vtable_entry(buf, loc as usize, VT_GROUP_INDEX) as int;
            &&& 0 < t && loc + t + 16 <= buf.len()
            &&& 0 < p && loc + p + 4 <= buf.len() && (loc + p) % 4 == 0
            &&& s != 0 ==> loc + s + 8 <= buf.len() && (loc + s) % 8 == 0
            &&& g != 0 ==> loc + g + 8 <= buf.len()
            &&& 4 <= buf.len() <= i32::MAX
        }),
{
}

/// An absent `package_sid` reads as its default 0; a present one is the
/// little-endian `u64` of the eight bytes at its position.
pub proof fn law_package_sid_default(buf: Seq<u8>)
    ensures
        vtable_entry(buf, root_loc(buf) as usize, VT_PACKAGE_SID) == 0 ==> package_sid_of(buf) == 0,
        vtable_entry(buf, root_loc(buf) as usize, VT_PACKAGE_SID) != 0 ==> package_sid_of(buf)
            == spec_u64_from_le_bytes(
            buf.subrange(
                root_loc(buf) + vtable_entry(buf, root_loc(buf) as usize, VT_PACKAGE_SID),
                root_loc(buf) + vtable_entry(buf, root_loc(buf) as usize, VT_PACKAGE_SID) + 8,
            ),
        ),
{
}

fn fits(len: usize, loc: usize, e: u16, size: usize, align: usize) -> (ok: bool)
    requires
        align > 0,
    ensures
        ok == (e == 0 || (loc + e + size <= len && (loc + e) % (align as int) == 0)),
{
    if e == 0 {
        true
    } else if loc > len {
        false
    } else {
        let rest = len - loc;
        let e = e as usize;
        if e > rest || size > rest - e {
            false
        } else {
            (loc + e) % align == 0
        }
    }
}

fn bytes8(buf: &Vec<u8>, p: usize) -> (b: [u8; 8])
    requires
        p + 8 <= buf.len(),
    ensures
        b@ == buf@.subrange(p as int, p + 8),
{
    let b = [buf[p], buf[p + 1], buf[p + 2], buf[p + 3], buf[p + 4], buf[p + 5], buf[p + 6], buf[p + 7]];
    assert(b@ =~= buf@.subrange(p as int, p + 8));
    b
}

fn bytes16(buf: &Vec<u8>, p: usize) -> (b: [u8; 16])
    requires
        p + 16 <= buf.len(),
    ensures
        b@ == buf@.subrange(p as int, p + 16),
{
    let b = [
        buf[p],
        buf[p + 1],
        buf[p + 2],
        buf[p + 3],
        buf[p + 4],
        buf[p + 5],
        buf[p + 6],
        buf[p + 7],
        buf[p + 8],
        buf[p + 9],
        buf[p + 10],
        buf[p + 11],
        buf[p + 12],
        buf[p + 13],
        buf[p + 14],
        buf[p + 15],
    ];
    assert(b@ =~= buf@.subrange(p as int, p + 16));
    b
}

/// Table `TaskMsg` of the schema, read from its buffer.
pub struct TaskMsg {
    buf: Vec<u8>,
    loc: usize,
}

impl View for TaskMsg {
    type V = Seq<u8>;

    closed spec fn view(&self) -> Seq<u8> {
        self.buf@
    }
}

impl TaskMsg {
    #[verifier::type_invariant]
    spec fn accepted(self) -> bool {
        task_msg_accepted(self.buf@) && self.loc == root_loc(self.buf@)
    }

    /// The `TaskMsg` at the root of `buf`, when `buf` holds one whose fields
    /// can be read (see `task_msg_accepted`).
    pub fn from_bytes(buf: Vec<u8>) -> (m: Option<TaskMsg>)
        ensures
            m is Some <==> task_msg_accepted(buf@),
            m matches Some(t) ==> t@ == buf@,
    {
        let len = buf.len();
        if len < 4 || len > 0x7fff_ffff {
            return None;
        }
        let loc = root_table_loc(buf.as_slice());
        if loc % 4 == 0 && loc <= len - 4 && buf[loc] == 0 && buf[loc + 1] == 0 && buf[loc + 2] == 0 && buf[loc
            + 3] == 0x80 {
            return None;
        }
        if !visit_table(buf.as_slice(), loc) {
            return None;
        }
        let package_sid = read_vtable_entry(buf.as_slice(), loc, VT_PACKAGE_SID);
        let task_id = read_vtable_entry(buf.as_slice(), loc, VT_TASK_ID);
        let group_index = read_vtable_entry(buf.as_slice(), loc, VT_GROUP_INDEX);
        let payload = read_vtable_entry(buf.as_slice(), loc, VT_PAYLOAD);
        if fits(len, loc, package_sid, 8, 8) && task_id != 0 && fits(len, loc, task_id, 16, 1) && fits(
            len,
            loc,
            group_index,
            8,
            1,
        ) && payload != 0 && fits(len, loc, payload, 4, 4) {
            Some(TaskMsg { buf, loc })
        } else {
            None
        }
    }

    /// The field `package_sid`, 0 when absent.
    pub fn package_sid(&self) -> (x: u64)
        ensures
            x == package_sid_of(self@),
    {
        proof {
            use_type_invariant(self);
        }
        let e = read_vtable_entry(self.buf.as_slice(), self.loc, VT_PACKAGE_SID);
        if e == 0 {
            0
        } else {
            follow_u64(&bytes8(&self.buf, self.loc + e as usize))
        }
    }

    /// The field `task_id`: the sixteen bytes it occupies in the buffer.
    pub fn task_id(&self) -> (t: TaskId)
        ensures
            t.0@ == self@.subrange(
                field_pos(self@, root_loc(self@), VT_TASK_ID),
                field_pos(self@, root_loc(self@), VT_TASK_ID) + 16,
            ),
    {
        proof {
            use_type_invariant(self);
        }
        let e = read_vtable_entry(self.buf.as_slice(), self.loc, VT_TASK_ID);
        TaskId(bytes16(&self.buf, self.loc + e as usize))
    }

    /// The field `group_index`: the eight bytes it occupies in the buffer,
    /// or none when absent.
    pub fn group_index(&self) -> (g: Option<GroupIndex>)
        ensures
            g is None <==> vtable_entry(self@, root_loc(self@) as usize, VT_GROUP_INDEX) == 0,
            g matches Some(x) ==> x.0@ == self@.subrange(
                field_pos(self@, root_loc(self@), VT_GROUP_INDEX),
                field_pos(self@, root_loc(self@), VT_GROUP_INDEX) + 8,
            ),
    {
        proof {
            use_type_invariant(self);
        }
        let e = read_vtable_entry(self.buf.as_slice(), self.loc, VT_GROUP_INDEX);
        if e == 0 {
            None
        } else {
            Some(GroupIndex(bytes8(&self.buf, self.loc + e as usize)))
        }
    }
}

} // verus!
