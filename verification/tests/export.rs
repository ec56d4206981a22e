use raytracing::export::PpmWriter;
use raytracing::export::PngWriter;

// The head of a plain text image: the format, the size, the greatest level.
fn head(size: &str) -> Vec<u8> {
    let mut bytes = vec![b'P', b'3', b'\n'];
    bytes.extend_from_slice(size.as_bytes());
    bytes.extend_from_slice(b"\n255\n");
    bytes
}

#[test]
fn a_new_writer_has_written_nothing() {
    assert!(PpmWriter::new().into_bytes().is_empty());
}

#[test]
fn the_head_of_an_image() {
    let mut w = PpmWriter::new();
    w.write_header(3, 2);
    assert_eq!(w.into_bytes(), head("3 2"));
    let mut w = PpmWriter::new();
    w.write_header(600, 1080);
    assert_eq!(w.into_bytes(), head("600 1080"));
    let mut w = PpmWriter::new();
    w.write_header(0, u32::MAX);
    assert_eq!(w.into_bytes(), head("0 4294967295"));
}

#[test]
fn one_line_for_each_pixel() {
    let mut w = PpmWriter::new();
    w.write(&vec![[255, 0, 10], [0, 0, 0], [9, 99, 100]]);
    assert_eq!(w.into_bytes(), b"255 0 10\n0 0 0\n9 99 100\n".to_vec());
}

#[test]
fn head_and_pixels_follow_each_other() {
    let mut w = PpmWriter::new();
    w.write_header(2, 1);
    w.write(&vec![[1, 2, 3]]);
    w.write(&vec![]);
    w.write(&vec![[40, 50, 60]]);
    let mut expected = head("2 1");
    expected.extend_from_slice(b"1 2 3\n40 50 60\n");
    assert_eq!(w.into_bytes(), expected);
}

#[test]
fn the_bytes_of_a_raster_image() {
    let mut w = PngWriter::new();
    assert_eq!(w, PngWriter::Waiting);
    w.write_header(2, 1);
    assert_eq!(w, PngWriter::Ready { width: 2, height: 1 });
    assert_eq!(w.write(&vec![[1, 2, 3], [40, 50, 60]]), vec![1, 2, 3, 40, 50, 60]);
    assert_eq!(w.write(&vec![]), Vec::<u8>::new());
}
