use sponsor::param::{Param, ENCODED_LEN, LAYOUT_VERSION, MAX_VALUE_SIZE};

#[test]
fn stored_form_is_version_flags_and_little_endian_numbers() {
    let record = Param {
        is_whitelisted: true,
        is_principal: false,
        last_use: 0x0102030405060708,
        count: 0x0a0b0c0d,
    };
    assert_eq!(
        record.to_bytes(),
        vec![1, 1, 0, 8, 7, 6, 5, 4, 3, 2, 1, 0x0d, 0x0c, 0x0b, 0x0a]
    );
}

#[test]
fn stored_form_of_the_empty_record() {
    let record = Param { is_whitelisted: false, is_principal: false, last_use: 0, count: 0 };
    assert_eq!(record.to_bytes(), vec![1, 0, 0, 0, 0, 0, 0, 0, 0, 0, 0, 0, 0, 0, 0]);
}

#[test]
fn stored_form_fits_the_bound() {
    let record = Param {
        is_whitelisted: true,
        is_principal: true,
        last_use: u64::MAX,
        count: u32::MAX,
    };
    assert_eq!(LAYOUT_VERSION, 1);
    assert_eq!(ENCODED_LEN, 15);
    assert_eq!(MAX_VALUE_SIZE, 100);
    assert_eq!(record.to_bytes().len(), ENCODED_LEN);
    assert!(record.to_bytes().len() <= MAX_VALUE_SIZE);
}

#[test]
fn round_trip_keeps_every_field() {
    let flags = [false, true];
    let times = [0u64, 1, 255, 256, 1_700_000_000_000_000_000, u64::MAX];
    let counts = [0u32, 1, 3, 65_536, u32::MAX];
    for is_whitelisted in flags {
        for is_principal in flags {
            for last_use in times {
                for count in counts {
                    let record = Param { is_whitelisted, is_principal, last_use, count };
                    assert_eq!(Param::from_bytes(&record.to_bytes()), Some(record));
                }
            }
        }
    }
}

#[test]
fn reading_gives_the_stored_numbers() {
    let bytes = [1u8, 0, 1, 0x10, 0, 0, 0, 0, 0, 0, 0, 2, 1, 0, 0];
    assert_eq!(
        Param::from_bytes(&bytes),
        Some(Param { is_whitelisted: false, is_principal: true, last_use: 16, count: 258 })
    );
}

#[test]
fn bytes_of_another_length_store_no_record() {
    let record = Param { is_whitelisted: true, is_principal: false, last_use: 9, count: 9 };
    let mut bytes = record.to_bytes();
    bytes.push(0);
    assert_eq!(Param::from_bytes(&bytes), None);
    bytes.truncate(14);
    assert_eq!(Param::from_bytes(&bytes), None);
    assert_eq!(Param::from_bytes(&[]), None);
}

#[test]
fn bytes_of_another_version_store_no_record() {
    let record = Param { is_whitelisted: true, is_principal: false, last_use: 9, count: 9 };
    let mut bytes = record.to_bytes();
    bytes[0] = 2;
    assert_eq!(Param::from_bytes(&bytes), None);
    bytes[0] = 0;
    assert_eq!(Param::from_bytes(&bytes), None);
}

#[test]
fn a_flag_byte_other_than_0_and_1_stores_no_record() {
    let record = Param { is_whitelisted: true, is_principal: false, last_use: 9, count: 9 };
    let mut bytes = record.to_bytes();
    bytes[1] = 2;
    assert_eq!(Param::from_bytes(&bytes), None);
    bytes[1] = 1;
    bytes[2] = 255;
    assert_eq!(Param::from_bytes(&bytes), None);
}
