use signalbroker_lin_transceiver_rp::record::Record;
use signalbroker_lin_transceiver_rp::records::Records;

#[test]
fn test_set_list() {
    let mut records = Records::new();

    let list = vec![Record::new(0x00, 5, 0), Record::new(0x02, 2, 1)];

    records.set_list(list.clone());

    assert_eq!(list[0], records.get_records()[0]);
    assert_eq!(list[1], records.get_records()[1]);
}

#[test]
fn test_find_by_id() {
    let mut records = Records::new();

    let list = vec![Record::new(0x00, 5, 0), Record::new(0x02, 2, 1)];

    records.set_list(list.clone());

    assert_eq!(records.find_by_id(0x00), Some(&mut list[0].clone()));
    assert_eq!(records.find_by_id(0x01), None);
    assert_eq!(records.find_by_id(0x02), Some(&mut list[1].clone()));
}

#[test]
fn test_find_by_id_im() {
    let mut records = Records::new();

    let list = vec![Record::new(0x00, 5, 0), Record::new(0x02, 2, 1)];

    records.set_list(list.clone());

    assert_eq!(records.find_by_id_im(0x00), Some(list[0].clone()));
    assert_eq!(records.find_by_id_im(0x01), None);
    assert_eq!(records.find_by_id_im(0x02), Some(list[1].clone()));
}

#[test]
fn empty_records_find_nothing() {
    let mut records = Records::new();
    assert!(records.get_records().is_empty());
    assert_eq!(records.find_by_id_im(0), None);
    assert_eq!(records.find_by_id(0), None);
}

#[test]
fn find_returns_first_of_duplicate_ids() {
    let mut records = Records::new();
    records.set_list(vec![Record::new(0x01, 1, 0), Record::new(0x04, 2, 0), Record::new(0x04, 3, 1)]);
    assert_eq!(records.find_by_id_im(0x04).unwrap().size(), 2);
    assert_eq!(records.find_by_id(0x04).unwrap().size(), 2);
}

#[test]
fn find_by_id_changes_the_stored_record() {
    let mut records = Records::new();
    records.set_list(vec![Record::new(0x01, 2, 0), Record::new(0x02, 2, 0)]);
    {
        let r = records.find_by_id(0x02).unwrap();
        r.set_write_cache(&[5, 6]);
        r.set_cache_valid(true);
    }
    let r = records.find_by_id_im(0x02).unwrap();
    assert!(r.cache_valid());
    assert_eq!(r.cache(), &[5u8, 6]);
    assert!(!records.find_by_id_im(0x01).unwrap().cache_valid());
}

#[test]
fn set_list_replaces_previous_list() {
    let mut records = Records::new();
    records.set_list(vec![Record::new(0x01, 2, 0)]);
    records.set_list(vec![Record::new(0x09, 1, 1)]);
    assert_eq!(records.get_records().len(), 1);
    assert_eq!(records.find_by_id_im(0x01), None);
    assert!(records.find_by_id_im(0x09).is_some());
}
