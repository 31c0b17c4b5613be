use neo4j_nif::conversions::{convert_list, convert_mapping};
use neo4j_nif::value::{insert_entry, ElixirValue};
use neo4j_nif::wire::WireValue;

#[test]
fn a_list_keeps_length_and_order() {
    let list = WireValue::List(vec![
        WireValue::Integer(1),
        WireValue::String("two".to_string()),
        WireValue::Boolean(true),
        WireValue::Null,
    ]);
    assert_eq!(
        ElixirValue::from_bolt(list),
        ElixirValue::List(vec![
            ElixirValue::Integer(1),
            ElixirValue::String("two".to_string()),
            ElixirValue::Boolean(true),
            ElixirValue::Null,
        ])
    );
}

#[test]
fn the_empty_list_converts_to_the_empty_list() {
    assert_eq!(ElixirValue::from_bolt(WireValue::List(vec![])), ElixirValue::List(vec![]));
    assert_eq!(convert_list(&vec![]), ElixirValue::List(vec![]));
}

#[test]
fn a_nested_list_keeps_its_shape() {
    let nested = WireValue::List(vec![
        WireValue::List(vec![
            WireValue::List(vec![WireValue::Integer(3)]),
            WireValue::List(vec![]),
        ]),
        WireValue::Integer(1),
    ]);
    assert_eq!(
        ElixirValue::from_bolt(nested),
        ElixirValue::List(vec![
            ElixirValue::List(vec![
                ElixirValue::List(vec![ElixirValue::Integer(3)]),
                ElixirValue::List(vec![]),
            ]),
            ElixirValue::Integer(1),
        ])
    );
}

#[test]
fn a_deep_list_converts_to_a_list_of_the_same_depth() {
    let mut wire = WireValue::Integer(0);
    let mut expected = ElixirValue::Integer(0);
    for _ in 0..200 {
        wire = WireValue::List(vec![wire]);
        expected = ElixirValue::List(vec![expected]);
    }
    assert_eq!(ElixirValue::from_bolt(wire), expected);
}

#[test]
fn a_mapping_keeps_its_keys() {
    let mapping = WireValue::Mapping(vec![
        ("name".to_string(), WireValue::String("Ann".to_string())),
        ("age".to_string(), WireValue::Integer(30)),
    ]);
    assert_eq!(
        ElixirValue::from_bolt(mapping),
        ElixirValue::Mapping(vec![
            ("name".to_string(), ElixirValue::String("Ann".to_string())),
            ("age".to_string(), ElixirValue::Integer(30)),
        ])
    );
}

#[test]
fn the_empty_mapping_converts_to_the_empty_mapping() {
    assert_eq!(ElixirValue::from_bolt(WireValue::Mapping(vec![])), ElixirValue::Mapping(vec![]));
    assert_eq!(convert_mapping(&vec![]), ElixirValue::Mapping(vec![]));
}

#[test]
fn of_two_entries_with_one_key_the_later_counts() {
    let mapping = vec![
        ("a".to_string(), WireValue::Integer(1)),
        ("b".to_string(), WireValue::Integer(2)),
        ("a".to_string(), WireValue::Integer(3)),
    ];
    assert_eq!(
        convert_mapping(&mapping),
        ElixirValue::Mapping(vec![
            ("a".to_string(), ElixirValue::Integer(3)),
            ("b".to_string(), ElixirValue::Integer(2)),
        ])
    );
}

#[test]
fn mappings_and_lists_nest() {
    let value = WireValue::Mapping(vec![(
        "rows".to_string(),
        WireValue::List(vec![
            WireValue::Mapping(vec![("n".to_string(), WireValue::Integer(1))]),
            WireValue::Mapping(vec![("n".to_string(), WireValue::Integer(2))]),
        ]),
    )]);
    assert_eq!(
        ElixirValue::from_bolt(value),
        ElixirValue::Mapping(vec![(
            "rows".to_string(),
            ElixirValue::List(vec![
                ElixirValue::Mapping(vec![("n".to_string(), ElixirValue::Integer(1))]),
                ElixirValue::Mapping(vec![("n".to_string(), ElixirValue::Integer(2))]),
            ]),
        )])
    );
}

#[test]
fn insert_entry_appends_a_new_key() {
    let mut entries = vec![("a".to_string(), ElixirValue::Integer(1))];
    insert_entry(&mut entries, "b".to_string(), ElixirValue::Null);
    assert_eq!(
        entries,
        vec![("a".to_string(), ElixirValue::Integer(1)), ("b".to_string(), ElixirValue::Null)]
    );
}

#[test]
fn insert_entry_replaces_a_key_where_it_stands() {
    let mut entries = vec![
        ("a".to_string(), ElixirValue::Integer(1)),
        ("b".to_string(), ElixirValue::Integer(2)),
    ];
    insert_entry(&mut entries, "a".to_string(), ElixirValue::Boolean(true));
    assert_eq!(
        entries,
        vec![
            ("a".to_string(), ElixirValue::Boolean(true)),
            ("b".to_string(), ElixirValue::Integer(2)),
        ]
    );
}

#[test]
fn insert_entry_replaces_the_last_of_two_entries_with_one_key() {
    let mut entries = vec![
        ("a".to_string(), ElixirValue::Integer(1)),
        ("a".to_string(), ElixirValue::Integer(2)),
        ("b".to_string(), ElixirValue::Integer(3)),
    ];
    insert_entry(&mut entries, "a".to_string(), ElixirValue::Null);
    assert_eq!(
        entries,
        vec![
            ("a".to_string(), ElixirValue::Integer(1)),
            ("a".to_string(), ElixirValue::Null),
            ("b".to_string(), ElixirValue::Integer(3)),
        ]
    );
}

#[test]
fn a_copy_has_the_same_content_at_every_level() {
    let value = ElixirValue::Mapping(vec![
        ("n".to_string(), ElixirValue::Null),
        ("flag".to_string(), ElixirValue::Boolean(true)),
        ("i".to_string(), ElixirValue::Integer(-7)),
        ("x".to_string(), ElixirValue::Float(2.5f64.to_bits())),
        (
            "items".to_string(),
            ElixirValue::List(vec![
                ElixirValue::String("s".to_string()),
                ElixirValue::List(vec![]),
                ElixirValue::Mapping(vec![("k".to_string(), ElixirValue::Integer(1))]),
            ]),
        ),
    ]);
    let copy = value.clone();
    assert_eq!(copy, value);
}

#[test]
fn a_value_converts_the_same_each_time() {
    let wire = WireValue::List(vec![
        WireValue::Mapping(vec![("k".to_string(), WireValue::Bytes(vec![0, 1, 2]))]),
        WireValue::Float(0.1f64.to_bits()),
    ]);
    let first = ElixirValue::from_bolt_ref(&wire);
    let second = ElixirValue::from_bolt_ref(&wire);
    assert_eq!(first, second);
    assert_eq!(
        first,
        ElixirValue::List(vec![
            ElixirValue::Mapping(vec![(
                "k".to_string(),
                ElixirValue::String("b\"\\0\\x01\\x02\"".to_string())
            )]),
            ElixirValue::Float(0.1f64.to_bits()),
        ])
    );
}
