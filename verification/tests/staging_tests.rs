use spwn_cmpl::diag::err;
use spwn_cmpl::staging::staging_dir_name;

#[test]
fn name_embeds_timestamp() {
    assert_eq!(
        staging_dir_name(1234567890123),
        b"spwncmpl_1234567890123".to_vec()
    );
}

#[test]
fn name_for_zero_timestamp() {
    assert_eq!(staging_dir_name(0), b"spwncmpl_0".to_vec());
}

#[test]
fn name_is_deterministic() {
    assert_eq!(staging_dir_name(42), staging_dir_name(42));
}

#[test]
fn distinct_timestamps_do_not_collide() {
    assert_ne!(staging_dir_name(42), staging_dir_name(43));
    assert_ne!(staging_dir_name(1), staging_dir_name(10));
}

#[test]
fn diagnostic_line_format() {
    assert_eq!(
        err("ERROR: ", "File does not exist!"),
        "spwn-CMPL: ERROR: File does not exist!"
    );
    assert_eq!(err("WARN: ", "w"), "spwn-CMPL: WARN: w");
    assert_eq!(err("INFO: ", "i"), "spwn-CMPL: INFO: i");
}
