use ysos_kernel::input::{
    get_line, pop_key, push_key, try_pop_key, InputBuffer, INPUT_BUFFER_SIZE,
};
use ysos_kernel::resource::{Resource, ResourceSet, StdIO};

fn feed(buffer: &mut InputBuffer, keys: &[u8]) {
    for key in keys {
        assert!(push_key(buffer, *key));
    }
}

#[test]
fn keys_come_out_in_the_order_they_came_in() {
    let mut buffer = InputBuffer::new();
    assert_eq!(try_pop_key(&mut buffer), None);
    feed(&mut buffer, b"abc");
    assert_eq!(try_pop_key(&mut buffer), Some(b'a'));
    assert_eq!(pop_key(&mut buffer), b'b');
    feed(&mut buffer, b"d");
    assert_eq!(pop_key(&mut buffer), b'c');
    assert_eq!(try_pop_key(&mut buffer), Some(b'd'));
    assert_eq!(try_pop_key(&mut buffer), None);
}

#[test]
fn full_buffer_drops_further_keys() {
    let mut buffer = InputBuffer::new();
    assert!(!buffer.is_full());
    for i in 0..INPUT_BUFFER_SIZE {
        assert!(push_key(&mut buffer, i as u8));
    }
    assert!(buffer.is_full());
    assert!(!push_key(&mut buffer, 0xee));
    assert!(!push_key(&mut buffer, 0xef));
    assert_eq!(try_pop_key(&mut buffer), Some(0));
    assert!(!buffer.is_full());
    assert!(push_key(&mut buffer, 0xf0));
    for i in 1..INPUT_BUFFER_SIZE {
        assert_eq!(try_pop_key(&mut buffer), Some(i as u8));
    }
    assert_eq!(try_pop_key(&mut buffer), Some(0xf0));
    assert_eq!(try_pop_key(&mut buffer), None);
}

#[test]
fn get_line_stops_at_enter() {
    let mut buffer = InputBuffer::new();
    let mut partial = Vec::new();
    feed(&mut buffer, b"ls -l\rpwd");
    assert_eq!(get_line(&mut buffer, &mut partial), Some(String::from("ls -l")));
    assert!(partial.is_empty());
    assert_eq!(try_pop_key(&mut buffer), Some(b'p'));
}

#[test]
fn get_line_applies_backspace_and_delete() {
    let mut buffer = InputBuffer::new();
    let mut partial = Vec::new();
    feed(&mut buffer, b"\x08cat\x7f\x08d x\x7f\x7f\r");
    assert_eq!(get_line(&mut buffer, &mut partial), Some(String::from("cd")));
    feed(&mut buffer, b"ab\x08\x08\x08\x08\r");
    assert_eq!(get_line(&mut buffer, &mut partial), Some(String::new()));
}

#[test]
fn get_line_keeps_an_unfinished_line() {
    let mut buffer = InputBuffer::new();
    let mut partial = Vec::new();
    feed(&mut buffer, b"ech");
    assert_eq!(get_line(&mut buffer, &mut partial), None);
    assert_eq!(partial, vec!['e', 'c', 'h']);
    assert_eq!(try_pop_key(&mut buffer), None);
    assert_eq!(get_line(&mut buffer, &mut partial), None);
    feed(&mut buffer, b"x\x08o hi\r\r");
    assert_eq!(get_line(&mut buffer, &mut partial), Some(String::from("echo hi")));
    assert_eq!(get_line(&mut buffer, &mut partial), Some(String::new()));
    assert_eq!(get_line(&mut buffer, &mut partial), None);
}

#[test]
fn get_line_takes_bytes_as_characters() {
    let mut buffer = InputBuffer::new();
    let mut partial = Vec::new();
    feed(&mut buffer, &[0x41, 0xe9, 0x0a, 0x0d]);
    let line = get_line(&mut buffer, &mut partial).unwrap();
    assert_eq!(line.chars().collect::<Vec<char>>(), vec!['A', '\u{e9}', '\n']);
}

#[test]
fn stdin_reads_one_key_at_a_time() {
    let mut buffer = InputBuffer::new();
    let stdin = Resource::Console(StdIO::Stdin);
    let mut buf = [0u8; 4];
    assert_eq!(stdin.read(&mut buffer, &mut buf), Some(0));
    feed(&mut buffer, b"xy");
    assert_eq!(stdin.read(&mut buffer, &mut buf), Some(1));
    assert_eq!(buf, [b'x', 0, 0, 0]);
    let mut none: [u8; 0] = [];
    assert_eq!(stdin.read(&mut buffer, &mut none), Some(0));
    assert_eq!(stdin.read(&mut buffer, &mut buf), Some(1));
    assert_eq!(buf, [b'y', 0, 0, 0]);
    assert_eq!(stdin.read(&mut buffer, &mut buf), Some(0));
}

#[test]
fn only_stdin_can_be_read() {
    let mut buffer = InputBuffer::new();
    feed(&mut buffer, b"k");
    let mut buf = [9u8; 2];
    assert_eq!(Resource::Console(StdIO::Stdout).read(&mut buffer, &mut buf), None);
    assert_eq!(Resource::Console(StdIO::Stderr).read(&mut buffer, &mut buf), None);
    assert_eq!(Resource::Null.read(&mut buffer, &mut buf), Some(0));
    assert_eq!(buf, [9, 9]);
    assert_eq!(try_pop_key(&mut buffer), Some(b'k'));
}

#[test]
fn only_stdin_cannot_be_written() {
    assert_eq!(Resource::Console(StdIO::Stdin).write(b"abc"), None);
    assert_eq!(Resource::Console(StdIO::Stdout).write(b"abc"), Some(3));
    assert_eq!(Resource::Console(StdIO::Stderr).write(b""), Some(0));
    assert_eq!(Resource::Null.write(b"hello"), Some(5));
}

#[test]
fn resource_set_starts_with_the_console() {
    let set = ResourceSet::new();
    assert_eq!(set.handle(0), Some(Resource::Console(StdIO::Stdin)));
    assert_eq!(set.handle(1), Some(Resource::Console(StdIO::Stdout)));
    assert_eq!(set.handle(2), Some(Resource::Console(StdIO::Stderr)));
    assert_eq!(set.handle(3), None);
    assert_eq!(set.write(1, b"hi"), 2);
    assert_eq!(set.write(2, b"oops"), 4);
    assert_eq!(set.write(0, b"hi"), -1);
    assert_eq!(set.write(7, b"hi"), -1);
    let mut buffer = InputBuffer::new();
    let mut buf = [0u8; 1];
    assert_eq!(set.read(0, &mut buffer, &mut buf), 0);
    feed(&mut buffer, b"z");
    assert_eq!(set.read(1, &mut buffer, &mut buf), -1);
    assert_eq!(set.read(9, &mut buffer, &mut buf), -1);
    assert_eq!(set.read(0, &mut buffer, &mut buf), 1);
    assert_eq!(buf, [b'z']);
}
