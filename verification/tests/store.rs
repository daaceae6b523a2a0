use crier::cache::Cache;
use crier::io::escape_path_id;
use crier::mem::CacheWriter;
use crier::mem::MemCache;

#[test]
fn test_cache_writer_reports_total_length() {
    let mut w = CacheWriter::new();
    assert_eq!(w.write(b"ab"), 2);
    assert_eq!(w.write(b"c"), 3);
    assert_eq!(w.write(b""), 3);
    w.flush();
}

#[test]
fn test_mem_cache_open_close() {
    let mut c = MemCache::new();
    c.open(String::from("foo"));
    c.open(String::from("foo"));
    c.open(String::from("bar"));
    assert_eq!(c.close(String::from("foo")), 0);
    assert_eq!(c.close(String::from("never opened")), 0);
}

#[test]
fn test_escape_path_id() {
    assert_eq!(escape_path_id(b"a/b\\c"), b"a%2Fb%5Cc".to_vec());
    assert_eq!(escape_path_id(b"plain"), b"plain".to_vec());
    assert_eq!(escape_path_id(b""), Vec::<u8>::new());
    assert_eq!(escape_path_id(b"//"), b"%2F%2F".to_vec());
}
