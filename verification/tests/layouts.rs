use birblike::buffer::Buffer;
use birblike::command::DeviceCommand;
use birblike::layout::{
    define_attribs, num_attrs, record_align, record_offsets, record_size, AttribFormat, BaseType,
};
use birblike::vertex_array::VertexArray;

fn fmt(components: u32, base: BaseType) -> AttribFormat {
    AttribFormat { components, base }
}

#[test]
fn offsets_respect_field_alignment() {
    // A synthetic record with known padding: one byte, then a 32-bit
    // integer that must start at offset 4, not 1.
    let fields = vec![fmt(1, BaseType::U8), fmt(1, BaseType::U32)];
    assert_eq!(record_offsets(&fields), vec![0, 4]);
    assert_eq!(record_align(&fields), 4);
    assert_eq!(record_size(&fields), 8);
}

#[test]
fn offsets_match_a_padded_three_field_record() {
    let fields = vec![fmt(1, BaseType::U16), fmt(1, BaseType::F64), fmt(1, BaseType::U8)];
    assert_eq!(record_offsets(&fields), vec![0, 8, 16]);
    assert_eq!(record_align(&fields), 8);
    assert_eq!(record_size(&fields), 24);
}

#[test]
fn packed_vector_fields_need_no_padding() {
    let fields = vec![fmt(2, BaseType::F32), fmt(3, BaseType::F32)];
    assert_eq!(record_offsets(&fields), vec![0, 8]);
    assert_eq!(record_size(&fields), 20);
}

#[test]
fn attribute_count_sums_over_composite_records() {
    // One 3-component float field plus one 2-component integer field
    // consume exactly two attribute slots.
    let fields = vec![fmt(3, BaseType::F32), fmt(2, BaseType::I32)];
    assert_eq!(num_attrs(&fields), 2);
    let (_, next_slot) = define_attribs(&fields, 0, 0);
    assert_eq!(next_slot, 2);
    assert_eq!(num_attrs(&vec![]), 0);
}

#[test]
fn define_attribs_describes_each_leaf() {
    let fields = vec![fmt(3, BaseType::F32), fmt(2, BaseType::I32)];
    let (cmds, next_slot) = define_attribs(&fields, 5, 0);
    assert_eq!(next_slot, 7);
    assert_eq!(
        cmds,
        vec![
            DeviceCommand::EnableVertexAttribArray { slot: 5 },
            DeviceCommand::VertexAttribPointer {
                slot: 5,
                components: 3,
                base_code: 0x1406,
                integer: false,
                stride: 20,
                offset: 0,
            },
            DeviceCommand::EnableVertexAttribArray { slot: 6 },
            DeviceCommand::VertexAttribPointer {
                slot: 6,
                components: 2,
                base_code: 0x1404,
                integer: true,
                stride: 20,
                offset: 12,
            },
        ]
    );
}

#[test]
fn stacked_buffers_continue_slot_allocation() {
    let mut vao = VertexArray::new(2);
    let first: Buffer<(i32, i32), birblike::target::Array> = Buffer::new(10);
    let second: Buffer<i32, birblike::target::Array> = Buffer::new(11);
    let cmds = vao.add_buffer(&first);
    assert_eq!(cmds[0], DeviceCommand::BindVertexArray { array: 2 });
    assert_eq!(cmds[1], DeviceCommand::BindBuffer { target: 0x8892, buffer: 10 });
    assert_eq!(cmds[2], DeviceCommand::EnableVertexAttribArray { slot: 0 });
    let cmds = vao.add_buffer(&second);
    assert_eq!(cmds[2], DeviceCommand::EnableVertexAttribArray { slot: 1 });
}
