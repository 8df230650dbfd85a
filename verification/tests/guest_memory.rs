use sc_executor_wasmtime::error::Error;
use sc_executor_wasmtime::guest_memory::{read_memory_into, write_memory_from};

fn read(memory: &[u8], address: u32, size: usize) -> Result<Vec<u8>, Error<()>> {
    let mut dest = vec![0; size];
    read_memory_into(memory, address, &mut dest).map(|()| dest)
}

fn is_other<T>(result: Result<T, Error<()>>, expected: &str) -> bool {
    match result {
        Err(Error::Other(message)) => message == expected,
        _ => false,
    }
}

#[test]
fn reads_the_bytes_at_the_address() {
    let memory = [10, 11, 12, 13, 14];
    assert_eq!(read(&memory, 1, 3).unwrap(), vec![11, 12, 13]);
    assert_eq!(read(&memory, 0, 5).unwrap(), vec![10, 11, 12, 13, 14]);
    assert_eq!(read(&memory, 5, 0).unwrap(), Vec::<u8>::new());
}

#[test]
fn reading_past_the_end_is_an_error() {
    let memory = [10, 11, 12, 13, 14];
    assert!(is_other(read(&memory, 3, 3), "memory read is out of bounds"));
    assert!(is_other(read(&memory, 6, 0), "memory read is out of bounds"));
    assert!(is_other(read(&memory, u32::MAX, 1), "memory read is out of bounds"));
}

#[test]
fn a_failed_read_leaves_the_destination() {
    let mut dest = vec![1, 2, 3];
    let result: Result<(), Error<()>> = read_memory_into(&[0, 0], 0, &mut dest);
    assert!(result.is_err());
    assert_eq!(dest, vec![1, 2, 3]);
}

#[test]
fn writes_the_bytes_at_the_address() {
    let mut memory = [0; 6];
    let result: Result<(), Error<()>> = write_memory_from(&mut memory, 2, &[7, 8, 9]);
    assert!(result.is_ok());
    assert_eq!(memory, [0, 0, 7, 8, 9, 0]);
}

#[test]
fn writing_past_the_end_is_an_error_and_writes_nothing() {
    let mut memory = [1; 6];
    let result = write_memory_from(&mut memory, 4, &[7, 8, 9]);
    assert!(is_other(result, "memory write is out of bounds"));
    assert_eq!(memory, [1; 6]);
    let result = write_memory_from(&mut memory, 7, &[]);
    assert!(is_other(result, "memory write is out of bounds"));
    let result = write_memory_from(&mut memory, u32::MAX, &[7]);
    assert!(is_other(result, "memory write is out of bounds"));
    assert_eq!(memory, [1; 6]);
}

#[test]
fn what_was_written_is_read_back() {
    let mut memory = [3; 8];
    let result: Result<(), Error<()>> = write_memory_from(&mut memory, 1, b"input");
    assert!(result.is_ok());
    assert_eq!(read(&memory, 1, 5).unwrap(), b"input".to_vec());
    assert_eq!(memory[0], 3);
    assert_eq!(memory[6..], [3, 3]);
}
