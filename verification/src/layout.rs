//! Static vertex layout descriptors.
//!
//! A vertex record is a sequence of leaf fields, each a scalar or a small
//! vector of one numeric base type. For every leaf the device needs four
//! facts: which attribute slot it feeds, how many components it has, which
//! numeric format it uses (and whether it is interpreted as integer data),
//! and at which byte offset inside the record it lives. Offsets follow the
//! record's true in-memory layout: each field starts at its own alignment,
//! after any padding the previous fields force, exactly as a C-layout
//! struct places it. Slots are assigned consecutively from a caller-given
//! base slot, so several vertex buffers can stack inside one vertex array.

use vstd::prelude::*;
use crate::command::DeviceCommand;

verus! {

/// The numeric base type of a leaf field.
#[derive(Copy, Clone, Debug, PartialEq, Eq, Structural)]
pub enum BaseType {
    /// 32-bit floating point.
    F32,
    /// 64-bit floating point.
    F64,
    /// 8-bit signed integer.
    I8,
    /// 16-bit signed integer.
    I16,
    /// 32-bit signed integer.
    I32,
    /// 8-bit unsigned integer.
    U8,
    /// 16-bit unsigned integer.
    U16,
    /// 32-bit unsigned integer.
    U32,
}

impl BaseType {
    /// The byte size (which is also the alignment) of one component.
    pub open spec fn size_spec(self) -> int {
        match self {
            BaseType::F32 => 4,
            BaseType::F64 => 8,
            BaseType::I8 => 1,
            BaseType::I16 => 2,
            BaseType::I32 => 4,
            BaseType::U8 => 1,
            BaseType::U16 => 2,
            BaseType::U32 => 4,
        }
    }

    /// The device's enumeration code for this base type.
    pub open spec fn code_spec(self) -> u32 {
        match self {
            BaseType::F32 => 0x1406,
            BaseType::F64 => 0x140A,
            BaseType::I8 => 0x1400,
            BaseType::I16 => 0x1402,
            BaseType::I32 => 0x1404,
            BaseType::U8 => 0x1401,
            BaseType::U16 => 0x1403,
            BaseType::U32 => 0x1405,
        }
    }

    /// Whether an attribute of this base type is described to the device as
    /// integer data (non-normalized integer pointer) rather than float data.
    pub open spec fn integer_spec(self) -> bool {
        match self {
            BaseType::F32 => false,
            BaseType::F64 => false,
            _ => true,
        }
    }

    /// Returns the byte size of one component.
    pub fn size(self) -> (r: u32)
        ensures
            r == self.size_spec(),
    {
        match self {
            BaseType::F32 => 4,
            BaseType::F64 => 8,
            BaseType::I8 => 1,
            BaseType::I16 => 2,
            BaseType::I32 => 4,
            BaseType::U8 => 1,
            BaseType::U16 => 2,
            BaseType::U32 => 4,
        }
    }

    /// Returns the device's enumeration code for this base type.
    pub fn code(self) -> (r: u32)
        ensures
            r == self.code_spec(),
    {
        match self {
            BaseType::F32 => 0x1406,
            BaseType::F64 => 0x140A,
            BaseType::I8 => 0x1400,
            BaseType::I16 => 0x1402,
            BaseType::I32 => 0x1404,
            BaseType::U8 => 0x1401,
            BaseType::U16 => 0x1403,
            BaseType::U32 => 0x1405,
        }
    }

    /// Returns whether the base type is integer-interpreted.
    pub fn is_integer(self) -> (r: bool)
        ensures
            r == self.integer_spec(),
    {
        match self {
            BaseType::F32 => false,
            BaseType::F64 => false,
            _ => true,
        }
    }
}

/// One leaf field of a vertex record: 1 to 4 components of one base type.
#[derive(Copy, Clone, Debug, PartialEq, Eq, Structural)]
pub struct AttribFormat {
    /// How many components the field has (1 to 4).
    pub components: u32,
    /// The numeric base type of every component.
    pub base: BaseType,
}

impl AttribFormat {
    /// A format is well formed when its component count is between 1 and 4.
    pub open spec fn wf(self) -> bool {
        1 <= self.components <= 4
    }
}

/// Every format of the sequence is well formed.
pub open spec fn formats_wf(fields: Seq<AttribFormat>) -> bool {
    forall|i: int| 0 <= i < fields.len() ==> #[trigger] fields[i].wf()
}

/// The byte size of a leaf: its components laid out back to back.
pub open spec fn leaf_size_spec(f: AttribFormat) -> int {
    f.components * f.base.size_spec()
}

/// The alignment of a leaf: the alignment of its base type.
pub open spec fn leaf_align_spec(f: AttribFormat) -> int {
    f.base.size_spec()
}

/// `x` rounded up to the next multiple of `a`.
pub open spec fn round_up_spec(x: int, a: int) -> int
    recommends
        0 <= x,
        1 <= a,
{
    if x % a == 0 {
        x
    } else {
        x + (a - x % a)
    }
}

/// The byte offset of field `i` of a record: the end of the preceding
/// fields, rounded up to field `i`'s alignment. This is the true in-memory
/// offset of the field in a C-layout record.
pub open spec fn field_offset(fields: Seq<AttribFormat>, i: int) -> int
    decreases i,
{
    if i <= 0 {
        0
    } else {
        round_up_spec(
            field_offset(fields, i - 1) + leaf_size_spec(fields[i - 1]),
            leaf_align_spec(fields[i]),
        )
    }
}

/// The end of the last field of the first `i` fields: where the next field
/// would start before alignment.
pub open spec fn prefix_end(fields: Seq<AttribFormat>, i: int) -> int {
    if i <= 0 {
        0
    } else {
        field_offset(fields, i - 1) + leaf_size_spec(fields[i - 1])
    }
}

/// The largest alignment among the fields, and 1 for the empty record.
pub open spec fn record_align_spec(fields: Seq<AttribFormat>) -> int
    decreases fields.len(),
{
    if fields.len() == 0 {
        1
    } else {
        let rest = record_align_spec(fields.drop_last());
        if leaf_align_spec(fields.last()) > rest {
            leaf_align_spec(fields.last())
        } else {
            rest
        }
    }
}

/// The byte size of the whole record: the end of its last field, rounded up
/// to the record's alignment. This is the stride between two consecutive
/// records in a vertex buffer.
pub open spec fn record_size_spec(fields: Seq<AttribFormat>) -> int {
    round_up_spec(prefix_end(fields, fields.len() as int), record_align_spec(fields))
}

/// A well-formed leaf occupies between 1 and 32 bytes, at an alignment
/// between 1 and 8.
proof fn lemma_leaf_size_bound(f: AttribFormat)
    requires
        f.wf(),
    ensures
        1 <= leaf_size_spec(f) <= 32,
        1 <= leaf_align_spec(f) <= 8,
{
    assert(1 <= f.base.size_spec() <= 8);
    assert(1 <= f.components * f.base.size_spec() <= 32) by (nonlinear_arith)
        requires
            1 <= f.components <= 4,
            1 <= f.base.size_spec() <= 8,
    ;
}

/// Rounding up moves by less than one alignment and never moves down.
proof fn lemma_round_up(x: int, a: int)
    requires
        0 <= x,
        1 <= a,
    ensures
        x <= round_up_spec(x, a) <= x + a - 1,
        x == 0 ==> round_up_spec(x, a) == 0,
{
    vstd::arithmetic::div_mod::lemma_mod_bound(x, a);
    vstd::arithmetic::div_mod::lemma_mod_multiples_basic(0, a);
}

/// Bounds every offset of a well-formed record: with leaves of at most 32
/// bytes and alignments of at most 8, field `i` starts within `40 * i + 8`
/// bytes and the first `i` fields end within `40 * i` bytes.
proof fn lemma_layout_bound(fields: Seq<AttribFormat>, i: int)
    requires
        formats_wf(fields),
        0 <= i <= fields.len(),
    ensures
        0 <= prefix_end(fields, i) <= 40 * i,
        i < fields.len() ==> 0 <= field_offset(fields, i) <= 40 * i + 8,
    decreases i,
{
    if i > 0 {
        lemma_layout_bound(fields, i - 1);
        assert(fields[i - 1].wf());
        lemma_leaf_size_bound(fields[i - 1]);
        assert(prefix_end(fields, i) <= 40 * i);
    }
    if i < fields.len() {
        assert(fields[i].wf());
        lemma_leaf_size_bound(fields[i]);
        lemma_round_up(prefix_end(fields, i), leaf_align_spec(fields[i]));
        assert(field_offset(fields, i) == round_up_spec(
            prefix_end(fields, i),
            leaf_align_spec(fields[i]),
        ));
    }
}

/// The record alignment lies between 1 and 8.
proof fn lemma_record_align_bound(fields: Seq<AttribFormat>)
    requires
        formats_wf(fields),
    ensures
        1 <= record_align_spec(fields) <= 8,
    decreases fields.len(),
{
    if fields.len() > 0 {
        assert(formats_wf(fields.drop_last())) by {
            assert(forall|i: int|
                0 <= i < fields.len() - 1 ==> #[trigger] fields.drop_last()[i].wf() == fields[i].wf());
        }
        lemma_record_align_bound(fields.drop_last());
        assert(fields[fields.len() - 1].wf());
    }
}

/// Returns the byte size of a well-formed leaf.
pub fn leaf_size(f: AttribFormat) -> (r: u32)
    requires
        f.wf(),
    ensures
        r == leaf_size_spec(f),
{
    f.components * f.base.size()
}

/// `x` rounded up to the next multiple of `a`.
fn round_up(x: u32, a: u32) -> (r: u32)
    requires
        1 <= a,
        x + a <= u32::MAX,
    ensures
        r == round_up_spec(x as int, a as int),
{
    let rem = x % a;
    if rem == 0 {
        x
    } else {
        x + (a - rem)
    }
}

/// Computes the true in-memory byte offset of every field of a record.
pub fn record_offsets(fields: &Vec<AttribFormat>) -> (r: Vec<u32>)
    requires
        formats_wf(fields@),
        fields@.len() <= 0x0010_0000,
    ensures
        r@.len() == fields@.len(),
        forall|i: int| 0 <= i < r@.len() ==> r@[i] == field_offset(fields@, i),
{
    let ghost gfields = fields@;
    let mut r: Vec<u32> = Vec::new();
    let mut end: u32 = 0;
    let n = fields.len();
    for i in 0..n
        invariant
            gfields == fields@,
            formats_wf(gfields),
            n == gfields.len() <= 0x0010_0000,
            r@.len() == i,
            forall|j: int| 0 <= j < i ==> r@[j] == field_offset(gfields, j),
            end == prefix_end(gfields, i as int),
    {
        proof {
            lemma_layout_bound(gfields, i as int);
            lemma_layout_bound(gfields, i + 1 as int);
            lemma_round_up(prefix_end(gfields, i as int), leaf_align_spec(gfields[i as int]));
        }
        let align = fields[i].base.size();
        let off = round_up(end, align);
        assert(off == field_offset(gfields, i as int));
        r.push(off);
        end = off + leaf_size(fields[i]);
    }
    r
}

/// Returns the alignment of a well-formed record.
pub fn record_align(fields: &Vec<AttribFormat>) -> (r: u32)
    requires
        formats_wf(fields@),
    ensures
        r == record_align_spec(fields@),
{
    let mut r: u32 = 1;
    let n = fields.len();
    for i in 0..n
        invariant
            formats_wf(fields@),
            n == fields@.len(),
            r == record_align_spec(fields@.take(i as int)),
    {
        assert(fields@.take(i + 1 as int).drop_last() =~= fields@.take(i as int));
        assert(formats_wf(fields@.take(i + 1 as int)));
        let align = fields[i].base.size();
        if align > r {
            r = align;
        }
    }
    assert(fields@.take(n as int) =~= fields@);
    r
}

/// Returns the byte size (stride) of a well-formed record.
pub fn record_size(fields: &Vec<AttribFormat>) -> (r: u32)
    requires
        formats_wf(fields@),
        fields@.len() <= 0x0010_0000,
    ensures
        r == record_size_spec(fields@),
{
    proof {
        lemma_layout_bound(fields@, fields@.len() as int);
        lemma_record_align_bound(fields@);
    }
    let mut end: u32 = 0;
    let n = fields.len();
    for i in 0..n
        invariant
            formats_wf(fields@),
            n == fields@.len() <= 0x0010_0000,
            end == prefix_end(fields@, i as int),
    {
        proof {
            lemma_layout_bound(fields@, i as int);
            lemma_layout_bound(fields@, i + 1 as int);
            lemma_round_up(prefix_end(fields@, i as int), leaf_align_spec(fields@[i as int]));
        }
        let align = fields[i].base.size();
        let off = round_up(end, align);
        end = off + leaf_size(fields[i]);
    }
    let al = record_align(fields);
    round_up(end, al)
}

/// The number of device attribute slots a record consumes: one per leaf
/// field. A composite record consumes the sum over its fields, and the
/// empty record consumes none.
pub fn num_attrs(fields: &Vec<AttribFormat>) -> (r: usize)
    ensures
        r == fields@.len(),
{
    fields.len()
}

/// The command at position `j` of the sequence [`define_attribs`] emits:
/// commands come in pairs, an enable of field `j / 2`'s slot followed by
/// the pointer description of that field.
pub open spec fn attrib_command(
    fields: Seq<AttribFormat>,
    base_slot: u32,
    base_offset: u32,
    j: int,
) -> DeviceCommand {
    let i = j / 2;
    if j % 2 == 0 {
        DeviceCommand::EnableVertexAttribArray { slot: (base_slot + i) as u32 }
    } else {
        DeviceCommand::VertexAttribPointer {
            slot: (base_slot + i) as u32,
            components: fields[i].components,
            base_code: fields[i].base.code_spec(),
            integer: fields[i].base.integer_spec(),
            stride: record_size_spec(fields) as u32,
            offset: (base_offset + field_offset(fields, i)) as u32,
        }
    }
}

/// Emits the device calls that describe a record's fields on a vertex
/// array: for each leaf, one enable of its slot and one pointer description
/// carrying the field's component count, base-type code, integer
/// interpretation, the record stride, and the field's true byte offset from
/// `base_offset`. Slots are consecutive from `base_slot`; the returned slot
/// is the first one not consumed, so a caller stacking several buffers can
/// continue there.
pub fn define_attribs(fields: &Vec<AttribFormat>, base_slot: u32, base_offset: u32) -> (r: (
    Vec<DeviceCommand>,
    u32,
))
    requires
        formats_wf(fields@),
        fields@.len() <= 0x0010_0000,
        base_slot + fields@.len() <= u32::MAX,
        base_offset + 40 * fields@.len() + 8 <= u32::MAX,
    ensures
        r.1 == base_slot + fields@.len(),
        r.0@.len() == 2 * fields@.len(),
        forall|j: int|
            0 <= j < r.0@.len() ==> #[trigger] r.0@[j] == attrib_command(
                fields@,
                base_slot,
                base_offset,
                j,
            ),
{
    proof {
        lemma_layout_bound(fields@, fields@.len() as int);
        lemma_record_align_bound(fields@);
        lemma_round_up(
            prefix_end(fields@, fields@.len() as int),
            record_align_spec(fields@),
        );
    }
    let stride = record_size(fields);
    let offsets = record_offsets(fields);
    let mut cmds: Vec<DeviceCommand> = Vec::new();
    let n = fields.len();
    for i in 0..n
        invariant
            formats_wf(fields@),
            n == fields@.len() <= 0x0010_0000,
            base_slot + n <= u32::MAX,
            base_offset + 40 * n + 8 <= u32::MAX,
            stride == record_size_spec(fields@),
            offsets@.len() == n,
            forall|j: int| 0 <= j < n ==> offsets@[j] == field_offset(fields@, j),
            cmds@.len() == 2 * i,
            forall|j: int|
                0 <= j < cmds@.len() ==> #[trigger] cmds@[j] == attrib_command(
                    fields@,
                    base_slot,
                    base_offset,
                    j,
                ),
    {
        proof {
            lemma_layout_bound(fields@, i as int);
        }
        let slot = base_slot + i as u32;
        let f = fields[i];
        cmds.push(DeviceCommand::EnableVertexAttribArray { slot });
        cmds.push(
            DeviceCommand::VertexAttribPointer {
                slot,
                components: f.components,
                base_code: f.base.code(),
                integer: f.base.is_integer(),
                stride,
                offset: base_offset + offsets[i],
            },
        );
        proof {
            assert((2 * i as int) / 2 == i as int);
            assert((2 * i as int + 1) / 2 == i as int);
            assert(cmds@[2 * i as int] == attrib_command(fields@, base_slot, base_offset, 2 * i as int));
            assert(cmds@[2 * i as int + 1] == attrib_command(
                fields@,
                base_slot,
                base_offset,
                2 * i as int + 1,
            ));
        }
    }
    (cmds, base_slot + n as u32)
}

/// A vertex record type: a Rust type whose values feed vertex attributes,
/// described as the sequence of its leaf fields.
pub trait VertexAttribute {
    /// The leaf fields of the record, in declaration order.
    spec fn fields_spec() -> Seq<AttribFormat>;

    /// Returns the leaf fields of the record.
    fn fields() -> (r: Vec<AttribFormat>)
        ensures
            r@ == Self::fields_spec(),
            formats_wf(r@),
    ;
}

impl VertexAttribute for () {
    open spec fn fields_spec() -> Seq<AttribFormat> {
        Seq::empty()
    }

    fn fields() -> (r: Vec<AttribFormat>) {
        Vec::new()
    }
}

impl VertexAttribute for i8 {
    open spec fn fields_spec() -> Seq<AttribFormat> {
        seq![AttribFormat { components: 1, base: BaseType::I8 }]
    }

    fn fields() -> (r: Vec<AttribFormat>) {
        let mut r = Vec::new();
        r.push(AttribFormat { components: 1, base: BaseType::I8 });
        proof {
            assert(r@ =~= Self::fields_spec());
        }
        r
    }
}

impl VertexAttribute for u8 {
    open spec fn fields_spec() -> Seq<AttribFormat> {
        seq![AttribFormat { components: 1, base: BaseType::U8 }]
    }

    fn fields() -> (r: Vec<AttribFormat>) {
        let mut r = Vec::new();
        r.push(AttribFormat { components: 1, base: BaseType::U8 });
        proof {
            assert(r@ =~= Self::fields_spec());
        }
        r
    }
}

impl VertexAttribute for i16 {
    open spec fn fields_spec() -> Seq<AttribFormat> {
        seq![AttribFormat { components: 1, base: BaseType::I16 }]
    }

    fn fields() -> (r: Vec<AttribFormat>) {
        let mut r = Vec::new();
        r.push(AttribFormat { components: 1, base: BaseType::I16 });
        proof {
            assert(r@ =~= Self::fields_spec());
        }
        r
    }
}

impl VertexAttribute for u16 {
    open spec fn fields_spec() -> Seq<AttribFormat> {
        seq![AttribFormat { components: 1, base: BaseType::U16 }]
    }

    fn fields() -> (r: Vec<AttribFormat>) {
        let mut r = Vec::new();
        r.push(AttribFormat { components: 1, base: BaseType::U16 });
        proof {
            assert(r@ =~= Self::fields_spec());
        }
        r
    }
}

impl VertexAttribute for i32 {
    open spec fn fields_spec() -> Seq<AttribFormat> {
        seq![AttribFormat { components: 1, base: BaseType::I32 }]
    }

    fn fields() -> (r: Vec<AttribFormat>) {
        let mut r = Vec::new();
        r.push(AttribFormat { components: 1, base: BaseType::I32 });
        proof {
            assert(r@ =~= Self::fields_spec());
        }
        r
    }
}

impl VertexAttribute for u32 {
    open spec fn fields_spec() -> Seq<AttribFormat> {
        seq![AttribFormat { components: 1, base: BaseType::U32 }]
    }

    fn fields() -> (r: Vec<AttribFormat>) {
        let mut r = Vec::new();
        r.push(AttribFormat { components: 1, base: BaseType::U32 });
        proof {
            assert(r@ =~= Self::fields_spec());
        }
        r
    }
}

impl VertexAttribute for (i32, i32) {
    open spec fn fields_spec() -> Seq<AttribFormat> {
        seq![AttribFormat { components: 2, base: BaseType::I32 }]
    }

    fn fields() -> (r: Vec<AttribFormat>) {
        let mut r = Vec::new();
        r.push(AttribFormat { components: 2, base: BaseType::I32 });
        proof {
            assert(r@ =~= Self::fields_spec());
        }
        r
    }
}

impl VertexAttribute for (u32, u32) {
    open spec fn fields_spec() -> Seq<AttribFormat> {
        seq![AttribFormat { components: 2, base: BaseType::U32 }]
    }

    fn fields() -> (r: Vec<AttribFormat>) {
        let mut r = Vec::new();
        r.push(AttribFormat { components: 2, base: BaseType::U32 });
        proof {
            assert(r@ =~= Self::fields_spec());
        }
        r
    }
}

impl VertexAttribute for (i32, i32, i32) {
    open spec fn fields_spec() -> Seq<AttribFormat> {
        seq![AttribFormat { components: 3, base: BaseType::I32 }]
    }

    fn fields() -> (r: Vec<AttribFormat>) {
        let mut r = Vec::new();
        r.push(AttribFormat { components: 3, base: BaseType::I32 });
        proof {
            assert(r@ =~= Self::fields_spec());
        }
        r
    }
}

impl VertexAttribute for (i32, i32, i32, i32) {
    open spec fn fields_spec() -> Seq<AttribFormat> {
        seq![AttribFormat { components: 4, base: BaseType::I32 }]
    }

    fn fields() -> (r: Vec<AttribFormat>) {
        let mut r = Vec::new();
        r.push(AttribFormat { components: 4, base: BaseType::I32 });
        proof {
            assert(r@ =~= Self::fields_spec());
        }
        r
    }
}

} // verus!
