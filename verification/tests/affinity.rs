use rperf::utils::cpu_affinity::{AffinityError, CpuAffinityManager};
use rperf::utils::text::{decimal_text, same_text, split_text};

fn cores_of(list: &str, present: Vec<usize>, turns: usize) -> Vec<Option<usize>> {
    let mut manager = CpuAffinityManager::with_present_cores(list, &present).unwrap();
    (0..turns).map(|_| manager.next_core()).collect()
}

#[test]
fn cores_go_round() {
    assert_eq!(
        cores_of("0,2,3", vec![0, 1, 2, 3], 7),
        vec![Some(0), Some(2), Some(3), Some(0), Some(2), Some(3), Some(0)]
    );
}

#[test]
fn cores_keep_the_order_of_the_list() {
    assert_eq!(cores_of("3,1,3", vec![0, 1, 2, 3], 3), vec![Some(3), Some(1), Some(3)]);
}

#[test]
fn empty_entries_and_absent_cores_are_skipped() {
    assert_eq!(cores_of(",1,,7,", vec![0, 1], 2), vec![Some(1), Some(1)]);
    assert_eq!(cores_of("", vec![0, 1], 2), vec![None, None]);
    assert_eq!(cores_of("5", vec![], 1), vec![None]);
}

#[test]
fn a_plus_sign_may_lead_a_core() {
    assert_eq!(cores_of("+1", vec![0, 1], 1), vec![Some(1)]);
}

#[test]
fn an_entry_that_is_no_number_is_an_error() {
    for (list, bad) in [("0,x,y", "x"), ("-1", "-1"), ("1, 2", " 2"), ("+", "+")] {
        match CpuAffinityManager::with_present_cores(list, &vec![0, 1]) {
            Err(AffinityError::InvalidCore { entry, .. }) => assert_eq!(entry, bad),
            Ok(_) => panic!("{} was read", list),
        }
    }
    assert!(CpuAffinityManager::new("0,99999999999999999999999").is_err());
    assert!(CpuAffinityManager::new("zero").is_err());
}

#[test]
fn the_machine_has_a_core_to_pin_to() {
    let all: Vec<String> = (0..1024).map(|core: usize| core.to_string()).collect();
    let mut manager = CpuAffinityManager::new(&all.join(",")).unwrap();
    manager.set_affinity();
    let first = manager.next_core();
    assert!(first.is_some());
    let mut none = CpuAffinityManager::new("").unwrap();
    none.set_affinity();
    assert_eq!(none.next_core(), None);
}

#[test]
fn text_splits_at_separators() {
    assert_eq!(split_text("a,b", ','), vec!["a", "b"]);
    assert_eq!(split_text("", ','), vec![""]);
    assert_eq!(split_text(",é,", ','), vec!["", "é", ""]);
}

#[test]
fn numbers_are_written_in_base_ten() {
    assert_eq!(decimal_text(0), "0");
    assert_eq!(decimal_text(5199), "5199");
    assert_eq!(decimal_text(65535), "65535");
}

#[test]
fn texts_are_compared_by_their_characters() {
    assert!(same_text("begin", "begin"));
    assert!(!same_text("begin", "Begin"));
}
