//! The buffered reader and writer over in-memory transports.

use ckb_script_ipc::bufreader::BufReader;
use ckb_script_ipc::bufwriter::BufWriter;
use ckb_script_ipc::io::{write_all, Read, Write};

#[test]
fn test_bufreader_with_capacity() {
    let data = b"Hello, world!".to_vec();
    let mut reader = BufReader::with_capacity(5, &data[..]);

    assert_eq!(reader.capacity(), 5);

    let mut buffer = [0u8; 13];
    assert_eq!(reader.read(&mut buffer).unwrap(), 13);
    assert_eq!(&buffer, b"Hello, world!");
}

#[test]
fn test_bufreader_read_partial() {
    let data = b"The quick brown fox jumps over the lazy dog".to_vec();
    let mut reader = BufReader::with_capacity(10, &data[..]);

    let mut buffer = [0u8; 15];
    assert_eq!(reader.read(&mut buffer).unwrap(), 15);
    assert_eq!(&buffer, b"The quick brown");

    assert_eq!(reader.read(&mut buffer).unwrap(), 15);
    assert_eq!(&buffer, b" fox jumps over");
}

#[test]
fn test_bufreader_large_capacity() {
    let data = b"Small data".to_vec();
    let mut reader = BufReader::with_capacity(100, &data[..]);

    assert_eq!(reader.capacity(), 100);

    let mut buffer = [0u8; 10];
    assert_eq!(reader.read(&mut buffer).unwrap(), 10);
    assert_eq!(&buffer, b"Small data");
}

#[test]
fn test_bufreader_fill_buf() {
    let data = b"Buffer test".to_vec();
    let mut reader = BufReader::with_capacity(6, &data[..]);

    let buf = reader.fill_buf().unwrap();
    assert_eq!(buf, b"Buffer");

    reader.consume(3);
    let buf = reader.fill_buf().unwrap();
    assert_eq!(buf, b"fer");
}

#[test]
fn test_bufreader_discard_buffer() {
    let data = b"Discard this buffer".to_vec();
    let mut reader = BufReader::with_capacity(8, &data[..]);

    let mut buffer = [0u8; 7];
    assert_eq!(reader.read(&mut buffer).unwrap(), 7);
    assert_eq!(&buffer, b"Discard");

    let mut buffer = [0u8; 11];
    assert_eq!(reader.read(&mut buffer).unwrap(), 1);
    assert_eq!(&buffer[..1], b" ");

    // Read the remaining content
    let mut buffer = [0u8; 11];
    assert_eq!(reader.read(&mut buffer).unwrap(), 11);
    assert_eq!(&buffer, b"this buffer");

    // Ensure we've read everything
    let mut buffer = [0u8; 1];
    assert_eq!(reader.read(&mut buffer).unwrap(), 0);
}

#[test]
fn test_bufreader_into_inner_get_ref() {
    let data = b"abc".to_vec();
    let mut reader = BufReader::with_capacity(2, &data[..]);
    assert_eq!(reader.get_ref(), &&data[..]);
    assert_eq!(reader.get_mut(), &mut &data[..]);
    assert_eq!(reader.buffer().len(), 2);
    let inner = reader.into_inner();
    assert_eq!(inner, &data[..]);
}

#[test]
fn test_io_impl() {
    let array = [1u8, 2, 3, 4];
    let mut buf = &array[..];
    let buf2 = &mut [0u8; 2];
    buf.read(buf2).unwrap();
    assert_eq!(buf.len(), 2);
}

#[test]
fn test_bufwriter_write_to_memory() {
    let inner = Vec::new();
    let mut writer = BufWriter::with_capacity(8, inner);

    write_all(&mut writer, b"Hello").unwrap();
    write_all(&mut writer, b", World!").unwrap();
    writer.flush().unwrap();

    assert_eq!(writer.get_ref(), b"Hello, World!");
}

#[test]
fn test_bufwriter_capacity() {
    let inner = Vec::new();
    let writer = BufWriter::with_capacity(16, inner);

    assert_eq!(writer.capacity(), 16);
}

#[test]
fn test_bufwriter_small_writes() {
    let inner = Vec::new();
    let mut writer = BufWriter::with_capacity(8, inner);

    write_all(&mut writer, b"a").unwrap();
    write_all(&mut writer, b"b").unwrap();
    write_all(&mut writer, b"c").unwrap();

    assert_eq!(writer.buffer(), b"abc");
    assert_eq!(writer.get_ref().len(), 0); // Not flushed yet

    writer.flush().unwrap();
    assert_eq!(writer.get_ref(), b"abc");
}

#[test]
fn test_bufwriter_large_write() {
    let inner = Vec::new();
    let mut writer = BufWriter::with_capacity(8, inner);

    write_all(&mut writer, b"abcdefghijklmnop").unwrap();

    assert!(writer.buffer().is_empty()); // Buffer should be flushed
    assert_eq!(writer.get_ref(), b"abcdefghijklmnop");
}

#[test]
fn test_bufwriter_multiple_flushes() {
    let inner = Vec::new();
    let mut writer = BufWriter::with_capacity(4, inner);

    write_all(&mut writer, b"ab").unwrap();
    writer.flush().unwrap();
    write_all(&mut writer, b"cd").unwrap();
    writer.flush().unwrap();

    assert_eq!(writer.get_ref(), b"abcd");
}

#[test]
fn test_write_exact_capacity() {
    let inner = Vec::new();
    let mut writer = BufWriter::with_capacity(8, inner);

    let bytes_written = writer.write(b"12345678").unwrap();
    assert_eq!(bytes_written, 8);
    assert!(writer.buffer().is_empty());
    assert_eq!(writer.get_ref(), b"12345678");
}

#[test]
fn test_write_over_capacity() {
    let inner = Vec::new();
    let mut writer = BufWriter::with_capacity(8, inner);

    let bytes_written = writer.write(b"123456789").unwrap();
    assert_eq!(bytes_written, 9);
    assert!(writer.buffer().is_empty());
    assert_eq!(writer.get_ref(), b"123456789");
}

#[test]
fn test_multiple_writes_within_capacity() {
    let inner = Vec::new();
    let mut writer = BufWriter::with_capacity(8, inner);

    assert_eq!(writer.write(b"123").unwrap(), 3);
    assert_eq!(writer.write(b"456").unwrap(), 3);
    assert_eq!(writer.buffer(), b"123456");
    assert!(writer.get_ref().is_empty());
}

#[test]
fn test_write_zero_bytes() {
    let inner = Vec::new();
    let mut writer = BufWriter::with_capacity(8, inner);

    let bytes_written = writer.write(&[]).unwrap();
    assert_eq!(bytes_written, 0);
    assert!(writer.buffer().is_empty());
    assert!(writer.get_ref().is_empty());
}
