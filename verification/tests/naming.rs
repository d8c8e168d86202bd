use zookeeper_operator::names::{child_name, u64_to_dec};

#[test]
fn decimal_rendering_exact_values() {
    assert_eq!(u64_to_dec(0), "0");
    assert_eq!(u64_to_dec(7), "7");
    assert_eq!(u64_to_dec(10), "10");
    assert_eq!(u64_to_dec(12), "12");
    assert_eq!(u64_to_dec(100), "100");
    assert_eq!(u64_to_dec(65535), "65535");
}

#[test]
fn child_names_follow_the_pattern() {
    assert_eq!(child_name("zk1", 0), "zk1-0");
    assert_eq!(child_name("zk1", 1), "zk1-1");
    assert_eq!(child_name("zk1", 2), "zk1-2");
    assert_eq!(child_name("a", 12), "a-12");
}

#[test]
fn child_names_are_distinct_per_index() {
    let mut names: Vec<String> = (0..50).map(|i| child_name("ensemble", i)).collect();
    names.sort();
    names.dedup();
    assert_eq!(names.len(), 50);
}
