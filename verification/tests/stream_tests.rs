use rwops::Backend;
use rwops::EmptyBackend;
use rwops::MemBackend;
use rwops::RWops;
use rwops::SeekOrigin;
use rwops::StreamError;

#[test]
fn mem_scenario_read_seek_read() {
    let data: Vec<u8> = vec![1, 2, 3, 4, 5];
    let mut s = RWops::from_bytes(data.as_slice()).unwrap();
    let mut buf: Vec<u8> = vec![0, 0, 0];
    assert_eq!(s.read(&mut buf), Ok(3));
    assert_eq!(buf, vec![1, 2, 3]);
    assert_eq!(s.tell(), Ok(3));
    assert_eq!(s.seek(-1, SeekOrigin::Current), Ok(2));
    assert_eq!(s.read(&mut buf), Ok(3));
    assert_eq!(buf, vec![3, 4, 5]);
    assert_eq!(s.tell(), Ok(5));
}

#[test]
fn mem_size_matches_buffer_len() {
    let data: Vec<u8> = vec![10, 20, 30, 40];
    let mut s = RWops::from_bytes(data.as_slice()).unwrap();
    assert_eq!(s.size(), Ok(4));
    assert!(matches!(s.seek(5, SeekOrigin::Start), Err(StreamError::IoError(_))));
    assert!(matches!(s.seek(-1, SeekOrigin::Start), Err(StreamError::IoError(_))));
    assert!(matches!(s.seek(1, SeekOrigin::End), Err(StreamError::IoError(_))));
    assert_eq!(s.tell(), Ok(0));
    assert_eq!(s.seek(4, SeekOrigin::Start), Ok(4));
    assert_eq!(s.seek(-2, SeekOrigin::End), Ok(2));
}

#[test]
fn tell_unchanged_by_noop_seek() {
    let data: Vec<u8> = vec![7, 7, 7, 7];
    let mut s = RWops::from_bytes(data.as_slice()).unwrap();
    assert_eq!(s.seek(2, SeekOrigin::Start), Ok(2));
    assert_eq!(s.tell(), Ok(2));
    assert_eq!(s.seek(0, SeekOrigin::Current), Ok(2));
    assert_eq!(s.tell(), Ok(2));
}

#[test]
fn close_twice_reports_already_closed() {
    let data: Vec<u8> = vec![1];
    let mut s = RWops::from_bytes(data.as_slice()).unwrap();
    assert_eq!(s.close(), Ok(None));
    assert_eq!(s.close(), Err(StreamError::AlreadyClosed));
    assert_eq!(s.close(), Err(StreamError::AlreadyClosed));
}

#[test]
fn operations_after_close_fail() {
    let data: Vec<u8> = vec![1, 2];
    let mut s = RWops::from_bytes(data.as_slice()).unwrap();
    assert_eq!(s.close(), Ok(None));
    let mut buf: Vec<u8> = vec![0];
    assert_eq!(s.read(&mut buf), Err(StreamError::AlreadyClosed));
    assert_eq!(s.write(&[1]), Err(StreamError::AlreadyClosed));
    assert_eq!(s.seek(0, SeekOrigin::Start), Err(StreamError::AlreadyClosed));
    assert_eq!(s.tell(), Err(StreamError::AlreadyClosed));
    assert_eq!(s.size(), Err(StreamError::AlreadyClosed));
}

#[test]
fn read_zero_bytes_is_ok() {
    let data: Vec<u8> = vec![1, 2, 3];
    let mut s = RWops::from_bytes(data.as_slice()).unwrap();
    let mut empty: Vec<u8> = vec![];
    assert_eq!(s.read(&mut empty), Ok(0));
    assert_eq!(s.tell(), Ok(0));
    assert_eq!(s.seek(3, SeekOrigin::Start), Ok(3));
    assert_eq!(s.read(&mut empty), Ok(0));
    assert_eq!(s.tell(), Ok(3));
}

#[test]
fn write_read_round_trip() {
    let mut s = RWops::from_backend(MemBackend::new());
    let payload: Vec<u8> = vec![9, 8, 7, 6];
    assert_eq!(s.write(payload.as_slice()), Ok(()));
    assert_eq!(s.tell(), Ok(4));
    assert_eq!(s.seek(0, SeekOrigin::Start), Ok(0));
    let mut buf: Vec<u8> = vec![0, 0, 0, 0];
    assert_eq!(s.read(&mut buf), Ok(4));
    assert_eq!(buf, payload);
}

#[test]
fn write_overwrites_and_extends() {
    let mut s = RWops::from_backend(MemBackend::from_vec(vec![1, 2, 3, 4]));
    assert_eq!(s.seek(2, SeekOrigin::Start), Ok(2));
    assert_eq!(s.write(&[9, 9, 9]), Ok(()));
    assert_eq!(s.size(), Ok(5));
    assert_eq!(s.seek(0, SeekOrigin::Start), Ok(0));
    let mut buf: Vec<u8> = vec![0; 5];
    assert_eq!(s.read(&mut buf), Ok(5));
    assert_eq!(buf, vec![1, 2, 9, 9, 9]);
}

#[test]
fn read_only_memory_refuses_write() {
    let data: Vec<u8> = vec![1, 2, 3];
    let mut s = RWops::from_bytes(data.as_slice()).unwrap();
    assert_eq!(s.write(&[4]), Err(StreamError::EndOfStream));
    assert_eq!(s.write(&[]), Ok(()));
    assert_eq!(s.tell(), Ok(0));
    let mut buf: Vec<u8> = vec![0; 3];
    assert_eq!(s.read(&mut buf), Ok(3));
    assert_eq!(buf, vec![1, 2, 3]);
}

#[test]
fn from_bytes_empty_region_fails() {
    let data: Vec<u8> = vec![];
    assert!(matches!(
        RWops::from_bytes(data.as_slice()),
        Err(StreamError::OpenError(_))
    ));
}

#[test]
fn read_at_end_reports_end_of_stream() {
    let data: Vec<u8> = vec![5, 6];
    let mut s = RWops::from_bytes(data.as_slice()).unwrap();
    let mut buf: Vec<u8> = vec![0; 4];
    assert_eq!(s.read(&mut buf), Ok(2));
    assert_eq!(s.read(&mut buf), Err(StreamError::EndOfStream));
    assert_eq!(s.tell(), Ok(2));
}

#[test]
fn short_read_leaves_rest_of_buffer() {
    let data: Vec<u8> = vec![1, 2];
    let mut s = RWops::from_bytes(data.as_slice()).unwrap();
    let mut buf: Vec<u8> = vec![9, 9, 9, 9];
    assert_eq!(s.read(&mut buf), Ok(2));
    assert_eq!(buf, vec![1, 2, 9, 9]);
}

#[test]
fn empty_backend_is_an_empty_stream() {
    let mut s = RWops::from_backend(EmptyBackend);
    assert_eq!(s.size(), Ok(0));
    assert_eq!(s.tell(), Ok(0));
    let mut buf: Vec<u8> = vec![0];
    assert_eq!(s.read(&mut buf), Err(StreamError::EndOfStream));
    assert_eq!(s.write(&[1]), Err(StreamError::EndOfStream));
    assert_eq!(s.close(), Ok(None));
    assert_eq!(s.close(), Err(StreamError::AlreadyClosed));
}

/// A caller-supplied backend that accepts at most one byte per write:
/// the stream layer must surface such short writes as end-of-stream.
struct OneByteSink {
    data: Vec<u8>,
    pos: usize,
}

impl Backend for OneByteSink {
    fn size(&self) -> u64 {
        self.data.len() as u64
    }

    fn seek(&mut self, offset: i64, origin: SeekOrigin) -> Result<u64, StreamError> {
        let len = self.data.len() as i128;
        let target = match origin {
            SeekOrigin::Start => offset as i128,
            SeekOrigin::Current => self.pos as i128 + offset as i128,
            SeekOrigin::End => len + offset as i128,
        };
        if target < 0 || target > len {
            return Err(StreamError::IoError("seek target outside the stream".to_string()));
        }
        self.pos = target as usize;
        Ok(target as u64)
    }

    fn read(&mut self, n: usize) -> Vec<u8> {
        let k = n.min(self.data.len() - self.pos);
        let out = self.data[self.pos..self.pos + k].to_vec();
        self.pos += k;
        out
    }

    fn write(&mut self, buf: &[u8]) -> usize {
        if buf.is_empty() {
            return 0;
        }
        if self.pos < self.data.len() {
            self.data[self.pos] = buf[0];
        } else {
            self.data.push(buf[0]);
        }
        self.pos += 1;
        1
    }

    fn close(&mut self) -> Option<String> {
        None
    }
}

#[test]
fn short_write_surfaces_as_end_of_stream() {
    let sink = OneByteSink { data: Vec::new(), pos: 0 };
    let mut s = RWops::from_backend(sink);
    assert_eq!(s.write(&[7, 8]), Err(StreamError::EndOfStream));
    assert_eq!(s.tell(), Ok(1));
    assert_eq!(s.seek(0, SeekOrigin::Start), Ok(0));
    let mut buf: Vec<u8> = vec![0];
    assert_eq!(s.read(&mut buf), Ok(1));
    assert_eq!(buf, vec![7]);
}

#[test]
fn mem_backend_direct_calls_follow_contract() {
    let mut b = MemBackend::from_vec(vec![1, 2, 3]);
    assert_eq!(b.size(), 3);
    assert_eq!(b.read(2), vec![1, 2]);
    assert_eq!(b.read(5), vec![3]);
    assert_eq!(b.read(1), Vec::<u8>::new());
    assert_eq!(b.seek(0, SeekOrigin::Start), Ok(0));
    assert_eq!(b.write(&[7, 8, 9, 10]), 4);
    assert_eq!(b.size(), 4);
    assert_eq!(b.seek(-4, SeekOrigin::End), Ok(0));
    assert_eq!(b.read(4), vec![7, 8, 9, 10]);
    assert_eq!(b.close(), None);
}
