use deskvrm::name::{file_name, is_model_name};
use deskvrm::staging::{staging_file, STAGING_SUFFIX};

#[test]
fn staging_name_is_target_ticket_suffix() {
    assert_eq!(STAGING_SUFFIX, ".part");
    assert_eq!(staging_file("avatar1.vrm", 0), "avatar1.vrm.0.part");
    assert_eq!(staging_file("avatar1.vrm", 7), "avatar1.vrm.7.part");
    assert_eq!(staging_file("avatar1.vrm", 10), "avatar1.vrm.10.part");
    assert_eq!(staging_file("a", 1234567890), "a.1234567890.part");
    assert_eq!(staging_file("x.vrm", 907), "x.vrm.907.part");
}

#[test]
fn staging_name_of_the_largest_ticket() {
    assert_eq!(staging_file("m.vrm", u64::MAX), "m.vrm.18446744073709551615.part");
    assert_eq!(staging_file("m.vrm", u64::MAX), format!("m.vrm.{}.part", u64::MAX));
}

#[test]
fn ticket_is_written_as_the_standard_library_writes_it() {
    let tickets = [0u64, 1, 9, 10, 11, 99, 100, 101, 1000, 65535, 4294967296, u64::MAX - 1];
    for ticket in tickets {
        assert_eq!(staging_file("t", ticket), format!("t.{}.part", ticket));
    }
}

#[test]
fn staging_name_is_a_plain_name_and_no_model() {
    for ticket in [0u64, 5, 42, u64::MAX] {
        let staging = staging_file("avatar1.vrm", ticket);
        assert_eq!(file_name(&staging), Some(staging.clone()));
        assert!(!is_model_name(&staging));
        assert_ne!(staging, "avatar1.vrm");
    }
}

#[test]
fn different_tickets_stage_in_different_files() {
    let mut seen: Vec<String> = Vec::new();
    for ticket in 0..200u64 {
        let staging = staging_file("avatar1.vrm", ticket);
        assert!(!seen.contains(&staging));
        seen.push(staging);
    }
}
