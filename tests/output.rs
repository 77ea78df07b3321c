use saltshore::output::{MockWriter, OutputMock, OutputWriter};

#[test]
fn mock_test_write() {
    let mut output = OutputMock::new();
    output.write(b"test").unwrap();
    assert_eq!(output.output, vec!["test"]);
}

#[test]
fn test_write_multiple() {
    let mut output = OutputMock::new();
    output.write(b"test").unwrap();
    output.write(b"test2").unwrap();
    assert_eq!(output.output, vec!["test", "test2"]);
}

#[test]
fn test_flush() {
    let mut output = OutputMock::new();
    output.flush().unwrap();
}

#[test]
fn write_refuses_bytes_that_are_not_utf8() {
    let mut output = OutputMock::new();
    let r = output.write(&[0x66, 0xff]);
    assert!(r.is_err());
    assert_eq!(r.unwrap_err().kind(), std::io::ErrorKind::InvalidData);
    assert!(output.output.is_empty());
}

#[test]
fn writer_writes_lines_and_prompts() {
    let mut writer = MockWriter::default();
    writer.writeln("test").unwrap();
    writer.prompt().unwrap();
    writer.write("x").unwrap();
    writer.write("").unwrap();
    writer.flush().unwrap();
    assert_eq!(writer.output(), vec!["test", "\n", "> ", "x"]);
}

#[test]
fn writeln_of_empty_text_writes_only_the_line_end() {
    let mut writer = OutputWriter::new(OutputMock::new());
    writer.writeln("").unwrap();
    assert_eq!(writer.output(), vec!["\n"]);
}
