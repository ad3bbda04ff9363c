use riscv_engine::mem::{memr16, memr32, memr8, memw};

#[test]
fn test_memw() {
    let mut memory = [0u8; 1024];
    let data = "hello world!";
    memw(data.as_bytes(), &mut memory, 0x0).unwrap();
    assert_eq!(data.as_bytes(), &memory[0..data.len()])
}

#[test]
fn test_memr32() {
    let mut memory = [0u8; 1024];
    let data = "hello_world!";
    memw(data.as_bytes(), &mut memory, 0x0).unwrap();
    let read = memr32(&memory, 0x0).unwrap();
    assert_eq!(&read, "hell".as_bytes());
}

#[test]
fn test_memr16() {
    let mut memory = [0u8; 1024];
    let data = "hello_world!";
    memw(data.as_bytes(), &mut memory, 0x0).unwrap();
    let read = memr16(&memory, 0x0).unwrap();
    assert_eq!(&read, "he".as_bytes());
}

#[test]
fn test_memr8() {
    let mut memory = [0u8; 1024];
    let data = "hello_world!";
    memw(data.as_bytes(), &mut memory, 0x0).unwrap();
    let read = memr8(&memory, 0x0).unwrap();
    assert_eq!(read, b'h');
}
