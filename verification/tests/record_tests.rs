use signalbroker_lin_transceiver_rp::record::Record;

#[test]
fn get_record_id() {
    let record = Record::new(0x43, 5, 1);
    assert_eq!(0x43, record.id());
}

#[test]
fn get_record_size() {
    let record = Record::new(0x00, 4, 0);
    assert_eq!(4, record.size());
}

#[test]
fn is_master_record() {
    let master_record = Record::new(0x32, 6, 1);
    let slave_record = Record::new(0x12, 8, 0);

    assert!(master_record.is_master());
    assert!(!slave_record.is_master());
}

#[test]
fn is_cache_valid() {
    let mut record = Record::new(0x11, 5, 0);
    assert!(!record.cache_valid());
    record.set_cache_valid(true);
    assert!(record.cache_valid());
}

#[test]
fn test_set_write_cache() {
    let mut record = Record::new(0x00, 4, 0);

    let data = [0x00u8, 0x32, 0x13, 0x23];

    record.set_write_cache(&data);

    for (index, value) in record.cache().iter().enumerate() {
        assert_eq!(data[index], *value);
    }
}

#[test]
#[should_panic]
fn test_set_write_cache_with_to_big_frame() {
    let mut record = Record::new(0x00, 4, 0);

    let data = [0x00u8, 0x01, 0x02, 0x03, 0x04, 0x05, 0x06, 0x07, 0x08];
    // The maximum frame length on LIN is 8
    record.set_write_cache(&data);
}

#[test]
fn new_record_cache_is_zero_and_sized() {
    let record = Record::new(0x05, 3, 0);
    assert_eq!(record.cache(), &[0u8, 0, 0]);
    assert!(!record.cache_valid());
}

#[test]
fn short_write_keeps_rest_of_cache() {
    let mut record = Record::new(0x05, 4, 0);
    record.set_write_cache(&[1, 2, 3, 4]);
    record.set_write_cache(&[9]);
    assert_eq!(record.cache(), &[9u8, 2, 3, 4]);
}

#[test]
fn write_then_read_back_full_frame() {
    let mut record = Record::new(0x3A, 8, 0);
    let data = [1u8, 2, 3, 4, 5, 6, 7, 8];
    record.set_write_cache(&data);
    assert_eq!(record.cache(), &data);
}

#[test]
fn is_master_only_for_flag_one() {
    assert!(!Record::new(1, 1, 2).is_master());
    assert!(!Record::new(1, 1, 0xFF).is_master());
}

#[test]
fn clone_keeps_everything() {
    let mut record = Record::new(0x07, 2, 1);
    record.set_write_cache(&[0xAA, 0xBB]);
    record.set_cache_valid(true);
    let copy = record.clone();
    assert_eq!(copy, record);
    assert_eq!(copy.cache(), &[0xAAu8, 0xBB]);
}
