use eudyptula::{Error, Task06, UserReader, UserWriter};

const ID: &[u8] = b"123456789012\n";

fn read_at(offset: u64) -> (Result<usize, Error>, Vec<u8>) {
    let mut w = UserWriter::new(64);
    let r = Task06::read((), &mut w, offset);
    (r, w.data())
}

fn write_bytes(b: &[u8]) -> Result<usize, Error> {
    let mut r = UserReader::new(b.to_vec());
    Task06::write((), &mut r, 0)
}

#[test]
fn open_succeeds() {
    assert_eq!(Task06::open(), Ok(()));
}

#[test]
fn read_from_start_gives_whole_identifier() {
    let (r, data) = read_at(0);
    assert_eq!(r, Ok(13));
    assert_eq!(data, ID.to_vec());
}

#[test]
fn read_at_twelve_gives_newline() {
    let (r, data) = read_at(12);
    assert_eq!(r, Ok(1));
    assert_eq!(data, b"\n".to_vec());
}

#[test]
fn read_in_the_middle_gives_suffix() {
    let (r, data) = read_at(5);
    assert_eq!(r, Ok(8));
    assert_eq!(data, b"6789012\n".to_vec());
}

#[test]
fn read_at_end_is_eof() {
    let (r, data) = read_at(13);
    assert_eq!(r, Ok(0));
    assert!(data.is_empty());
}

#[test]
fn read_past_end_is_eof() {
    let (r, data) = read_at(14);
    assert_eq!(r, Ok(0));
    assert!(data.is_empty());
    let (r, data) = read_at(u64::MAX);
    assert_eq!(r, Ok(0));
    assert!(data.is_empty());
}

#[test]
fn read_length_matches_offset_for_every_offset() {
    for o in 0u64..20 {
        let (r, data) = read_at(o);
        let start = if o < 13 { o as usize } else { 13 };
        assert_eq!(r, Ok(13 - start));
        assert_eq!(data, ID[start..].to_vec());
    }
}

#[test]
fn read_into_small_buffer_faults() {
    let mut w = UserWriter::new(4);
    assert_eq!(Task06::read((), &mut w, 0), Err(Error::BadAddress));
    assert!(w.data().is_empty());
    let mut w = UserWriter::new(1);
    assert_eq!(Task06::read((), &mut w, 12), Ok(1));
    assert_eq!(w.data(), b"\n".to_vec());
}

#[test]
fn repeated_reads_agree() {
    let (r1, d1) = read_at(3);
    let (r2, d2) = read_at(3);
    assert_eq!(r1, r2);
    assert_eq!(d1, d2);
    let mut w = UserWriter::new(64);
    assert_eq!(Task06::read((), &mut w, 7), Ok(6));
    assert_eq!(Task06::read((), &mut w, 7), Ok(6));
    assert_eq!(w.data(), b"89012\n89012\n".to_vec());
}

#[test]
fn cat_prints_identifier_then_eof() {
    let mut w = UserWriter::new(4096);
    let first = Task06::read((), &mut w, 0);
    assert_eq!(first, Ok(13));
    let second = Task06::read((), &mut w, 13);
    assert_eq!(second, Ok(0));
    assert_eq!(w.data(), ID.to_vec());
}

#[test]
fn two_readers_each_get_identifier() {
    let mut a = UserWriter::new(64);
    let mut b = UserWriter::new(64);
    assert_eq!(Task06::read((), &mut a, 0), Ok(13));
    assert_eq!(Task06::read((), &mut b, 0), Ok(13));
    assert_eq!(a.data(), ID.to_vec());
    assert_eq!(b.data(), ID.to_vec());
}

#[test]
fn write_of_identifier_is_accepted() {
    assert_eq!(write_bytes(b"123456789012\n"), Ok(13));
}

#[test]
fn write_with_wrong_last_byte_is_rejected() {
    assert_eq!(write_bytes(b"123456789012 "), Err(Error::InvalidArgument));
}

#[test]
fn write_of_zeros_is_rejected() {
    assert_eq!(write_bytes(b"000000000000\n"), Err(Error::InvalidArgument));
}

#[test]
fn write_of_wrong_text_is_rejected() {
    assert_eq!(write_bytes(b"wrong12345678\n"), Err(Error::InvalidArgument));
}

#[test]
fn short_write_faults() {
    let mut r = UserReader::new(b"12345".to_vec());
    assert_eq!(Task06::write((), &mut r, 0), Err(Error::BadAddress));
    assert_eq!(r.remaining_len(), 5);
}

#[test]
fn write_ignores_offset_and_takes_thirteen_bytes() {
    let mut r = UserReader::new(b"123456789012\nextra".to_vec());
    assert_eq!(Task06::write((), &mut r, 999), Ok(13));
    assert_eq!(r.remaining_len(), 5);
}

#[test]
fn error_numbers() {
    assert_eq!(Error::InvalidArgument.to_errno(), -22);
    assert_eq!(Error::BadAddress.to_errno(), -14);
}
