use opcode_tables::table_types::{OpInfo, OpSize, OpSizeInfo};
use opcode_tables::unique_set::{find_index, iter_collect_unique, position_of, vec_dedup, Descriptor};

fn first_occurrence(values: &[&'static str], value: &str) -> usize {
    values.iter().position(|x| *x == value).unwrap()
}

#[test]
fn dedup_keeps_first_occurrences_in_order() {
    let mut values = vec!["a", "a", "b", "c"];
    vec_dedup(&mut values);
    assert_eq!(values, vec!["a", "b", "c"]);

    let mut values = vec!["x", "y", "x", "z", "y", "x", "w"];
    vec_dedup(&mut values);
    assert_eq!(values, vec!["x", "y", "z", "w"]);
}

#[test]
fn dedup_of_empty_and_of_distinct_values() {
    let mut values: Vec<&'static str> = Vec::new();
    vec_dedup(&mut values);
    assert!(values.is_empty());

    let mut values = vec!["c", "b", "a"];
    vec_dedup(&mut values);
    assert_eq!(values, vec!["c", "b", "a"]);
}

#[test]
fn dedup_of_equal_values_leaves_one() {
    let mut values = vec![OpInfo::Cond, OpInfo::Cond, OpInfo::Cond];
    vec_dedup(&mut values);
    assert_eq!(values, vec![OpInfo::Cond]);
}

#[test]
fn dedup_twice_changes_nothing_more() {
    let once = iter_collect_unique(vec!["b", "a", "b", "c", "a"]);
    let twice = iter_collect_unique(once.clone());
    assert_eq!(once, vec!["b", "a", "c"]);
    assert_eq!(once, twice);
}

#[test]
fn collect_unique_compares_by_content() {
    let built_here = OpSizeInfo {
        with_operand_size_override: OpSize::S8,
        mode_32: OpSize::S8,
        mode_64: OpSize::S8,
        mode_64_with_rex_w: OpSize::S8,
    };
    let sizes = iter_collect_unique(vec![
        OpSizeInfo::sz_always_8(),
        OpSizeInfo::sz_16_32_64_def_32(),
        built_here,
        OpSizeInfo::sz_16_32_64_def_32(),
    ]);
    assert_eq!(sizes, vec![OpSizeInfo::sz_always_8(), OpSizeInfo::sz_16_32_64_def_32()]);
}

#[test]
fn lookup_in_unique_list_finds_every_value() {
    let values = vec!["x", "y", "x", "z", "y", "w"];
    let unique = iter_collect_unique(values.clone());
    for value in &values {
        let index = find_index(value, &unique);
        assert_eq!(unique[index], *value);
    }
}

#[test]
fn lookup_gives_first_occurrence_where_nothing_repeats_before_it() {
    let values = vec!["x", "y", "z", "x", "w", "y"];
    let unique = iter_collect_unique(values.clone());
    assert_eq!(find_index(&"x", &unique), first_occurrence(&values, "x"));
    assert_eq!(find_index(&"y", &unique), first_occurrence(&values, "y"));
    assert_eq!(find_index(&"z", &unique), first_occurrence(&values, "z"));
    // "x" is repeated before "w": its place is the number of distinct values before it
    assert_eq!(first_occurrence(&values, "w"), 4);
    assert_eq!(find_index(&"w", &unique), 3);
}

#[test]
fn lookup_counts_distinct_values_before_first_occurrence() {
    let values = vec!["a", "a", "b"];
    let unique = iter_collect_unique(values.clone());
    assert_eq!(first_occurrence(&values, "b"), 2);
    assert_eq!(find_index(&"b", &unique), 1);
}

#[test]
fn find_index_returns_first_of_equal_items() {
    let collection = vec!["a", "b", "a", "b"];
    assert_eq!(find_index(&"a", &collection), 0);
    assert_eq!(find_index(&"b", &collection), 1);
}

#[test]
fn position_of_missing_value_is_none() {
    let collection = vec!["a", "b"];
    assert_eq!(position_of(&"c", &collection), None);
    assert_eq!(position_of(&"b", &collection), Some(1));
    let empty: Vec<&'static str> = Vec::new();
    assert_eq!(position_of(&"a", &empty), None);
}

#[test]
fn same_compares_texts_by_characters() {
    let left: &'static str = "mov";
    let built: &'static str = Box::leak(format!("{}{}", "mo", "v").into_boxed_str());
    assert!(left.same(&built));
    assert!(!left.same(&"mo"));
    assert!(!left.same(&"mox"));
    assert!("".same(&""));
}
