use typestate_handle::{Closed, FileHandle, READ_VALUE, use_file};

#[test]
fn full_protocol_returns_42() {
    assert_eq!(use_file(), 42);
}

#[test]
fn get_data_after_read_is_the_read_value() {
    let f = FileHandle::<Closed>::new();
    let f = f.open();
    let f = f.read();
    assert_eq!(f.get_data(), READ_VALUE);
    assert_eq!(f.get_data(), 42);
}

#[test]
fn get_data_does_not_consume_the_handle() {
    let f = FileHandle::<Closed>::new().open().read();
    assert_eq!(f.get_data(), 42);
    assert_eq!(f.get_data(), 42);
    let _f = f.close();
}

#[test]
fn close_permits_open_again() {
    let f = FileHandle::<Closed>::new();
    let f = f.open().read();
    assert_eq!(f.get_data(), 42);
    let f = f.close();
    let g = f.open().read();
    assert_eq!(g.get_data(), 42);
    let _g = g.close();
}
