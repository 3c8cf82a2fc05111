use msquic_h3::buffer::{
    Buffer, QArrayBuffer, QBuffRef, QBufferVec, QBytesMut, QOwnedBuffer, QVecBuffer, SBuffer,
};
use msquic_h3::utils::SBox;

#[test]
fn test_vec_buffer() {
    let buff: QVecBuffer = "ok".into();
    let raw: Buffer = (&QBuffRef::from(&buff)).into();
    let buff2 = QVecBuffer::from(&QBuffRef::from(&raw));
    assert_eq!(buff.data, buff2.data);
}

#[test]
fn test_buffer_vec() {
    let args: [QVecBuffer; 2] = [QVecBuffer::from("hi"), QVecBuffer::from("hi2")];
    let buffer_vec = QBufferVec::from(args.as_slice());

    let buffs = buffer_vec.as_buffers();
    assert_eq!(buffs.len(), 2);
    let b1 = &buffs[0];

    let arg1 = QVecBuffer::from(&QBuffRef::from(b1));
    assert_eq!(args[0], arg1);
    assert_eq!(buffs[1].length(), 3);
}

#[test]
fn owned_buffers_give_back_their_bytes() {
    let bytes = [1u8, 2, 3];
    let r = QBuffRef { data: &bytes };
    let array: QArrayBuffer<3> = QArrayBuffer::from_buff_ref(&r);
    assert_eq!(array.as_buff_ref().data, &bytes);
    assert_eq!(QBuffRef::from(&array).data, &bytes);
    let owned = QVecBuffer::from_buff_ref(&r);
    assert_eq!(owned.as_buff_ref().data, &bytes);
    assert_eq!(QVecBuffer::from("ok").data, vec![0x6f, 0x6b]);
    assert_eq!(QVecBuffer::default().data, Vec::<u8>::new());
}

#[test]
fn shared_buffer_gives_back_its_description() {
    let owned = QVecBuffer::from("shared");
    let r = QBuffRef::from(&owned);
    let raw = Buffer::from(&r);
    let shared = SBuffer::from(&raw);
    let back = Buffer::from(&shared);
    assert_eq!(QBuffRef::from(&back).data, b"shared");
}

#[test]
fn chunk_is_the_concatenation_of_its_buffers() {
    let args = [QVecBuffer::from("hello"), QVecBuffer::from(""), QVecBuffer::from(" world")];
    let buffer_vec = QBufferVec::from(args.as_slice());
    let chunk = QBytesMut::from_buffs(buffer_vec.as_buffers());
    assert_eq!(&chunk.0[..], b"hello world");
    assert_eq!(QBytesMut::from_buffs(&[]).0.len(), 0);
}

#[test]
fn box_gives_its_value() {
    let b = SBox::new(5);
    assert_eq!(*b.get_ref(), 5);
    assert_eq!(SBox::from("x").inner, "x");
    assert_eq!(b.debug_text(), "SBox { inner: \"not displayed\" }");
}
