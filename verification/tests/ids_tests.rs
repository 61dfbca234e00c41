use copytej::ids::{job_id_text, parse_job_id, uuid_v4, uuid_v7, JobIdClock};
use copytej::store::db::{decode_src_paths, encode_src_paths};

#[test]
fn job_ids_are_shown_as_hyphenated_uuids() {
    let v = 0xa1a2a3a4b1b2c1c2d1d2d3d4d5d6d7d8u128;
    assert_eq!(job_id_text(v), "a1a2a3a4-b1b2-c1c2-d1d2-d3d4d5d6d7d8");
    assert_eq!(job_id_text(0), "00000000-0000-0000-0000-000000000000");
    for x in [1u128, u128::MAX, 0x0123_4567_89ab_cdef_0011_2233_4455_6677] {
        assert_eq!(job_id_text(x), uuid::Uuid::from_u128(x).to_string());
    }
}

#[test]
fn job_ids_read_back_from_their_text() {
    for x in [0u128, 7, u128::MAX, 0xa1a2a3a4b1b2c1c2d1d2d3d4d5d6d7d8] {
        assert_eq!(parse_job_id(&job_id_text(x)), Ok(x));
    }
    assert_eq!(
        parse_job_id("a1a2a3a4b1b2c1c2d1d2d3d4d5d6d7d8"),
        Ok(0xa1a2a3a4b1b2c1c2d1d2d3d4d5d6d7d8)
    );
    assert!(parse_job_id("not-a-uuid").is_err());
    assert!(parse_job_id("").is_err());
}

#[test]
fn source_paths_column() {
    let paths = vec!["C:\\a \"b\".txt".to_string(), "d".to_string()];
    let text = encode_src_paths(&paths);
    assert_eq!(text, serde_json::to_string(&paths).unwrap());
    assert_eq!(decode_src_paths(&text), paths);
    assert_eq!(encode_src_paths(&vec![]), "[]");
    assert!(decode_src_paths("not json").is_empty());
    assert!(decode_src_paths("{\"a\":1}").is_empty());
}

#[test]
fn uuid_builders_agree_with_the_uuid_crate() {
    let r: u128 = 0xdead_beef_0123_4567_89ab_cdef_f00d_cafe;
    assert_eq!(uuid_v4(r), uuid::Builder::from_random_bytes(r.to_be_bytes()).into_uuid().as_u128());
    let ms: u64 = 1_753_142_400_123;
    let low: [u8; 16] = r.to_be_bytes();
    let mut ten = [0u8; 10];
    ten.copy_from_slice(&low[6..16]);
    assert_eq!(
        uuid_v7(ms, r),
        uuid::Builder::from_unix_timestamp_millis(ms, &ten).into_uuid().as_u128()
    );
    assert_eq!(uuid::Uuid::from_u128(uuid_v7(ms, r)).get_version_num(), 7);
}

#[test]
fn job_ids_made_later_sort_later() {
    let a = uuid_v7(1_000, u128::MAX);
    let b = uuid_v7(1_001, 0);
    assert!(a < b);
    assert!(copytej::ids::job_id_text(a) < copytej::ids::job_id_text(b));
}

#[test]
fn job_ids_stay_in_order_when_the_clock_goes_back() {
    let mut c = JobIdClock::new();
    let a = c.next_id(5_000, u128::MAX);
    let b = c.next_id(4_000, 0);
    let d = c.next_id(6_000, 0);
    assert_eq!(a >> 80, 5_000);
    assert_eq!(b >> 80, 5_000);
    assert!(a >> 80 <= b >> 80 && b < d);
    assert_eq!(uuid::Uuid::from_u128(b).get_version_num(), 7);
}
