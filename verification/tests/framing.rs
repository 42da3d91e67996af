use mmo::frame::{frame, header_length, length_header};
use mmo::store::next_id_step;

#[test]
fn header_is_big_endian() {
    assert_eq!(length_header(0x0102_0304), [1, 2, 3, 4]);
    assert_eq!(length_header(5), 5u32.to_be_bytes());
    assert_eq!(header_length(&[0, 0, 1, 0]), 256);
    for n in [0u32, 1, 255, 65_536, u32::MAX] {
        assert_eq!(header_length(&length_header(n)), n);
    }
}

#[test]
fn frame_prefixes_length() {
    assert_eq!(frame(&[9, 8, 7]), Some(vec![0, 0, 0, 3, 9, 8, 7]));
    assert_eq!(frame(&[]), Some(vec![0, 0, 0, 0]));
}

#[test]
fn counter_runs_through_ids() {
    let mut stored = None;
    for expected in 1..=5u32 {
        let step = next_id_step(&stored).unwrap();
        assert_eq!(step.id, expected.to_string());
        stored = Some(step.stored);
    }
}

#[test]
fn counter_from_zero() {
    let first = next_id_step(&Some("0".to_string())).unwrap();
    assert_eq!((first.id.as_str(), first.stored.as_str()), ("0", "1"));
    let second = next_id_step(&Some(first.stored)).unwrap();
    assert_eq!((second.id.as_str(), second.stored.as_str()), ("1", "2"));
}
