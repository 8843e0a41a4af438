use birblike::buffer::{
    Buffer, BufferMapError, BufferMapMut, ElementBuffer, ShaderStorageBuffer, UsageType,
    VertexBuffer,
};
use birblike::command::DeviceCommand;
use birblike::error::{DeviceOutcome, GlError, DEVICE_OUT_OF_MEMORY};
use birblike::target::Array;

#[test]
fn upload_round_trip_reads_back_every_element() {
    let mut buf: ShaderStorageBuffer<u32> = ShaderStorageBuffer::new(7, 0);
    let data: [u32; 4] = [10, 20, 30, 40];
    buf.upload(&data, UsageType::DynamicDraw);
    let (view, _cmds) = buf.map_mut();
    let view = view.expect("a non-empty buffer maps to a view");
    for i in 0..4 {
        assert_eq!(*view.index(i), data[i]);
    }
    buf.unmap(view);
    assert_eq!(buf.len(), 4);
}

#[test]
fn upload_twice_keeps_length_and_handle() {
    let mut buf: VertexBuffer<u32> = Buffer::new(5);
    buf.upload(&[1, 2, 3], UsageType::StaticDraw);
    assert_eq!(buf.len(), 3);
    buf.upload(&[1, 2, 3], UsageType::StaticDraw);
    assert_eq!(buf.len(), 3);
    assert_eq!(buf.delete(), DeviceCommand::DeleteBuffer { buffer: 5 });
}

#[test]
fn map_mut_on_empty_buffer_yields_no_view() {
    let mut buf: ShaderStorageBuffer<u32> = ShaderStorageBuffer::new(9, 2);
    let (view, cmds) = buf.map_mut();
    assert!(view.is_none());
    assert!(cmds.is_empty());
    assert_eq!(buf.len(), 0);
}

#[test]
fn upload_binds_before_replacing_the_store() {
    let mut buf: VertexBuffer<u16> = Buffer::new(3);
    let cmds = buf.upload(&[7, 8], UsageType::StreamRead);
    assert_eq!(
        cmds,
        vec![
            DeviceCommand::BindBuffer { target: 0x8892, buffer: 3 },
            DeviceCommand::BufferData { target: 0x8892, len: 2, usage: 0x88E1 },
        ]
    );
}

#[test]
fn indexed_upload_binds_the_numbered_slot_first() {
    let mut buf: ShaderStorageBuffer<u8> = ShaderStorageBuffer::new(4, 6);
    let cmds = buf.upload(&[1], UsageType::DynamicCopy);
    assert_eq!(
        cmds,
        vec![
            DeviceCommand::BindBufferBase { target: 0x90D2, slot: 6, buffer: 4 },
            DeviceCommand::BindBuffer { target: 0x90D2, buffer: 4 },
            DeviceCommand::BufferData { target: 0x90D2, len: 1, usage: 0x88EA },
        ]
    );
}

#[test]
fn mapped_writes_come_back_on_the_next_view() {
    let mut buf: ShaderStorageBuffer<u32> = ShaderStorageBuffer::new(8, 1);
    buf.upload(&[5, 6], UsageType::DynamicDraw);
    let (view, _) = buf.map_mut();
    let mut view = view.unwrap();
    *view.index_mut(1) = 99;
    buf.unmap(view);
    let (view, _) = buf.map_mut();
    let view = view.unwrap();
    assert_eq!(*view.index(0), 5);
    assert_eq!(*view.index(1), 99);
    buf.unmap(view);
}

#[test]
fn buffer_bind_targets_follow_the_type() {
    let vbo: Buffer<u8, Array> = Buffer::new(12);
    assert_eq!(
        vbo.bind(),
        DeviceCommand::BindBuffer { target: 0x8892, buffer: 12 }
    );
    let ssbo: ShaderStorageBuffer<u8> = ShaderStorageBuffer::new(13, 3);
    assert_eq!(
        ssbo.bind(),
        DeviceCommand::BindBufferBase { target: 0x90D2, slot: 3, buffer: 13 }
    );
}

#[test]
fn error_codes_classify_exactly() {
    assert_eq!(GlError::map_value(0, 42u32), DeviceOutcome::Success(42));
    assert_eq!(
        GlError::map_value(DEVICE_OUT_OF_MEMORY, 42u32),
        DeviceOutcome::OutOfMemory
    );
    assert_eq!(
        GlError::map_value(0x0502, 42u32),
        DeviceOutcome::Failure(GlError { code: 0x0502 })
    );
}

#[test]
fn plain_buffers_map_and_read_back() {
    let mut buf: ElementBuffer<u32> = Buffer::new(14);
    buf.upload(&[3, 1, 4], UsageType::StaticDraw);
    let (view, cmds) = BufferMapMut::new(&mut buf);
    let view = view.unwrap();
    assert_eq!(cmds[0], DeviceCommand::BindBuffer { target: 0x8893, buffer: 14 });
    assert_eq!(cmds[1], DeviceCommand::MapBufferRange { target: 0x8893, len: 3 });
    assert_eq!(*view.index(2), 4);
    let cmds = view.unmap(&mut buf);
    assert_eq!(cmds[1], DeviceCommand::UnmapBuffer { target: 0x8893 });
    assert_eq!(buf.len(), 3);
}

#[test]
fn map_errors_wrap_device_errors() {
    let err = GlError { code: 0x0501 };
    assert_eq!(BufferMapError::from(err), BufferMapError::Gl(err));
    assert_ne!(BufferMapError::from(err), BufferMapError::ZeroLength);
}
