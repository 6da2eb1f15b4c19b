use text_table::{Dir, ErrorKind, Table, TableError};

fn strings(items: &[&str]) -> Vec<String> {
    items.iter().map(|s| s.to_string()).collect()
}

fn five_objects() -> Table {
    let mut tab: Table = Table::new();
    _ = tab.set_headers(vec![
        String::from("h1"),
        String::from("h2"),
        String::from("h3"),
    ]);

    _ = tab.add_object(
        String::from("o1"),
        vec!["o1h1".to_string(), "o1h2".to_string(), "o1h3".to_string()],
    );
    _ = tab.add_object(
        String::from("o2"),
        vec!["o2h1".to_string(), "o2h2".to_string(), "o2h3".to_string()],
    );
    _ = tab.add_object(
        String::from("o3"),
        vec!["o3h1".to_string(), "o3h2".to_string(), "o3h3".to_string()],
    );
    _ = tab.add_object(
        String::from("o4"),
        vec!["o4h1".to_string(), "o4h2".to_string(), "o4h3".to_string()],
    );
    _ = tab.add_object(
        String::from("o5"),
        vec!["o5h1".to_string(), "o5h2".to_string(), "o5h3".to_string()],
    );
    tab
}

#[test]
fn new_test() {
    let result: Table = Table::new();
    assert_eq!(result.flow_direction(), Dir::Row);
    assert_eq!(result.columns(), 0);
    assert_eq!(result.rows(), 0);
    assert_eq!(*result.headers(), Vec::<String>::new());
    assert_eq!(*result.names(), Vec::<String>::new());
}

#[test]
fn change_flow_dir_test() {
    let mut tab: Table = Table::new();
    assert_eq!(tab.flow_direction(), Dir::Row);
    let flow: Dir = tab.change_flow_dir();
    assert_eq!(flow, Dir::Column);
    assert_eq!(tab.flow_direction(), Dir::Column);
}

#[test]
fn set_flow_dir_test() {
    let mut tab: Table = Table::new();
    assert_eq!(tab.flow_direction(), Dir::Row);

    tab.set_flow_dir(Dir::Row);
    assert_eq!(tab.flow_direction(), Dir::Row);

    tab.set_flow_dir(Dir::Column);
    assert_eq!(tab.flow_direction(), Dir::Column);

    tab.set_flow_dir(Dir::Row);
    assert_eq!(tab.flow_direction(), Dir::Row);
}

#[test]
fn set_columns_test() {
    let mut tab: Table = Table::new();
    let len = tab.set_columns(5);

    assert_eq!(len, Ok(5));
    assert_eq!(tab.columns(), 5);

    let result = tab.set_columns(10);
    match result {
        Ok(_) => panic!("Wrong?!?!"),
        Err(err) => assert_eq!("Columns already set", err.message()),
    }

    assert_eq!(tab.columns(), 5);
}

#[test]
fn set_headers_test() {
    let mut tab: Table = Table::new();
    _ = tab.set_columns(3);

    let result = tab.set_headers(vec![
        String::from("h1"),
        String::from("h2"),
        String::from("h3"),
    ]);
    match result {
        Ok(len) => {
            assert_eq!(len, 3);
            assert_eq!(
                *tab.headers(),
                vec![String::from("h1"), String::from("h2"), String::from("h3")]
            )
        }
        Err(_) => panic!("WTF?!?!"),
    }

    let result = tab.set_headers(vec![
        String::from("h3"),
        String::from("h3"),
        String::from("h3"),
    ]);
    match result {
        Ok(_) => panic!("WTF!!??"),
        Err(err) => {
            assert_eq!(
                err.message(),
                "Columns or headers already set or wrong number of headers"
            );
            assert_eq!(
                *tab.headers(),
                vec![String::from("h1"), String::from("h2"), String::from("h3")]
            );
        }
    }
}

#[test]
fn set_headers_test_2() {
    let mut tab: Table = Table::new();

    let result = tab.set_headers(vec![
        String::from("h1"),
        String::from("h2"),
        String::from("h3"),
    ]);
    match result {
        Ok(len) => {
            assert_eq!(len, 3);
            assert_eq!(
                *tab.headers(),
                vec![String::from("h1"), String::from("h2"), String::from("h3")]
            );
        }
        Err(_) => panic!("WTF?!?!"),
    }

    let result = tab.set_headers(vec![
        String::from("h3"),
        String::from("h3"),
        String::from("h3"),
        String::from("h3"),
    ]);
    match result {
        Ok(_) => panic!("WTF!!??"),
        Err(err) => {
            assert_eq!(
                err.message(),
                "Columns or headers already set or wrong number of headers"
            );
            assert_eq!(
                *tab.headers(),
                vec![String::from("h1"), String::from("h2"), String::from("h3")]
            );
        }
    }
}

#[test]
fn add_object_test() {
    let mut tab: Table = Table::new();

    _ = tab.set_headers(vec![
        String::from("h1"),
        String::from("h2"),
        String::from("h3"),
    ]);
    let name1 = match tab.add_object(
        String::from("name1"),
        vec![String::from("h1"), String::from("h2"), String::from("h3")],
    ) {
        Ok(name1) => name1,
        Err(err) => panic!("WTF?!?! {}", err.message()),
    };

    assert_eq!(tab.rows(), 1);
    assert_eq!(name1, String::from("name1"));
    assert_eq!(tab.names()[0], String::from("name1"));
    assert_eq!(
        tab.values()[0],
        vec![String::from("h1"), String::from("h2"), String::from("h3")]
    );
    for i in 0..3 {
        assert_eq!(tab.values()[0][i], format!("h{}", i + 1));
    }
}

#[test]
fn print_test() {
    let mut tab: Table = five_objects();

    assert_eq!(
        tab.get_as_string(true),
"+----+------+------+------+
|    |  h1  |  h2  |  h3  |
+----+------+------+------+
| o1 | o1h1 | o1h2 | o1h3 |
+----+------+------+------+
| o2 | o2h1 | o2h2 | o2h3 |
+----+------+------+------+
| o3 | o3h1 | o3h2 | o3h3 |
+----+------+------+------+
| o4 | o4h1 | o4h2 | o4h3 |
+----+------+------+------+
| o5 | o5h1 | o5h2 | o5h3 |
+----+------+------+------+\n"
    );
    assert_eq!(
        tab.get_as_string(false),
"+----+------+------+------+
|    |  h1  |  h2  |  h3  |
+----+------+------+------+
| o1 | o1h1 | o1h2 | o1h3 |
| o2 | o2h1 | o2h2 | o2h3 |
| o3 | o3h1 | o3h2 | o3h3 |
| o4 | o4h1 | o4h2 | o4h3 |
| o5 | o5h1 | o5h2 | o5h3 |
+----+------+------+------+\n"
    );

    _ = tab.change_flow_dir();
    assert_eq!(
        tab.get_as_string(true),
"+----+------+------+------+------+------+
|    |  o1  |  o2  |  o3  |  o4  |  o5  |
+----+------+------+------+------+------+
| h1 | o1h1 | o2h1 | o3h1 | o4h1 | o5h1 |
+----+------+------+------+------+------+
| h2 | o1h2 | o2h2 | o3h2 | o4h2 | o5h2 |
+----+------+------+------+------+------+
| h3 | o1h3 | o2h3 | o3h3 | o4h3 | o5h3 |
+----+------+------+------+------+------+\n"
    );
    assert_eq!(
        tab.get_as_string(false),
"+----+------+------+------+------+------+
|    |  o1  |  o2  |  o3  |  o4  |  o5  |
+----+------+------+------+------+------+
| h1 | o1h1 | o2h1 | o3h1 | o4h1 | o5h1 |
| h2 | o1h2 | o2h2 | o3h2 | o4h2 | o5h2 |
| h3 | o1h3 | o2h3 | o3h3 | o4h3 | o5h3 |
+----+------+------+------+------+------+\n"
    );
}

#[test]
fn fresh_table_is_empty() {
    let tab = Table::new();
    assert_eq!(tab.columns(), 0);
    assert_eq!(tab.rows(), 0);
    assert!(tab.headers().is_empty());
    assert!(tab.names().is_empty());
    assert!(tab.values().is_empty());
}

#[test]
fn columns_set_only_once() {
    let mut tab = Table::new();
    assert_eq!(tab.set_columns(2), Ok(2));
    assert_eq!(tab.set_columns(2), Err(TableError::ColumnsAlreadySet));
    assert_eq!(tab.set_columns(7), Err(TableError::ColumnsAlreadySet));
    assert_eq!(TableError::ColumnsAlreadySet.kind(), ErrorKind::Schema);
    assert_eq!(tab.columns(), 2);
}

#[test]
fn headers_fix_the_count_and_then_are_frozen() {
    let mut tab = Table::new();
    assert_eq!(tab.set_headers(strings(&["a", "b"])), Ok(2));
    assert_eq!(tab.columns(), 2);
    assert_eq!(tab.set_columns(3), Err(TableError::ColumnsAlreadySet));
    assert_eq!(
        tab.set_headers(strings(&["c", "d"])),
        Err(TableError::HeadersRejected)
    );
    assert_eq!(*tab.headers(), strings(&["a", "b"]));
    assert_eq!(TableError::HeadersRejected.kind(), ErrorKind::Schema);
}

#[test]
fn headers_must_match_a_fixed_count() {
    let mut tab = Table::new();
    assert_eq!(tab.set_columns(3), Ok(3));
    assert_eq!(
        tab.set_headers(strings(&["a", "b"])),
        Err(TableError::HeadersRejected)
    );
    assert!(tab.headers().is_empty());
    assert_eq!(tab.set_headers(strings(&["a", "b", "c"])), Ok(3));
    assert_eq!(*tab.headers(), strings(&["a", "b", "c"]));
}

#[test]
fn objects_are_appended_in_order() {
    let mut tab = Table::new();
    _ = tab.set_columns(2);
    assert_eq!(tab.add_object("x".to_string(), strings(&["1", "2"])), Ok("x".to_string()));
    assert_eq!(tab.add_object("y".to_string(), strings(&["3", "4"])), Ok("y".to_string()));
    assert_eq!(tab.rows(), 2);
    assert_eq!(*tab.names(), strings(&["x", "y"]));
    assert_eq!(tab.values()[1], strings(&["3", "4"]));
}

#[test]
fn one_value_short_fails() {
    let mut tab = five_objects();
    let result = tab.add_object("o6".to_string(), strings(&["a", "b"]));
    assert_eq!(result, Err(TableError::WrongValueCount { expected: 3 }));
    assert_eq!(tab.rows(), 5);
    assert_eq!(tab.names().len(), 5);
    let err = result.unwrap_err();
    assert_eq!(err.kind(), ErrorKind::Validation);
    assert_eq!(err.message(), "Wrong number of values\nShould be: 3");
}

#[test]
fn value_count_message_has_all_digits() {
    let err = TableError::WrongValueCount { expected: 120 };
    assert_eq!(err.message(), "Wrong number of values\nShould be: 120");
    let err = TableError::WrongValueCount { expected: 0 };
    assert_eq!(err.message(), "Wrong number of values\nShould be: 0");
}

#[test]
fn render_twice_is_identical() {
    let mut tab = five_objects();
    assert_eq!(tab.get_as_string(true), tab.get_as_string(true));
    assert_eq!(tab.get_as_string(false), tab.get_as_string(false));
    tab.change_flow_dir();
    assert_eq!(tab.get_as_string(true), tab.get_as_string(true));
    assert_eq!(tab.rows(), 5);
}

#[test]
fn odd_padding_goes_right() {
    let mut tab = Table::new();
    _ = tab.set_headers(strings(&["x"]));
    _ = tab.add_object("n".to_string(), strings(&["a"]));
    _ = tab.add_object("nm".to_string(), strings(&["bb"]));
    assert_eq!(
        tab.get_as_string(false),
        "+----+----+\n|    | x  |\n+----+----+\n| n  | a  |\n| nm | bb |\n+----+----+\n"
    );
    assert_eq!(
        tab.get_as_string_column(true),
        "+---+---+----+\n|   | n | nm |\n+---+---+----+\n| x | a | bb |\n+---+---+----+\n"
    );
}

#[test]
fn transposed_layout_matches_cells() {
    let mut tab = five_objects();
    tab.set_flow_dir(Dir::Column);
    assert_eq!(tab.get_as_string(true), tab.get_as_string_column(true));
    tab.set_flow_dir(Dir::Row);
    assert_eq!(tab.get_as_string(false), tab.get_as_string_row(false));
}

#[test]
fn empty_table_renders_its_frame() {
    let mut tab = Table::new();
    assert_eq!(tab.get_as_string(true), "+--+\n|  |\n+--+\n");
    tab.change_flow_dir();
    assert_eq!(tab.get_as_string(false), "+--+\n|  |\n+--+\n");
    _ = tab.set_headers(strings(&["h1"]));
    tab.change_flow_dir();
    assert_eq!(tab.get_as_string(true), "+--+----+\n|  | h1 |\n+--+----+\n");
}

#[test]
fn missing_headers_are_blank() {
    let mut tab = Table::new();
    _ = tab.set_columns(2);
    _ = tab.add_object("a".to_string(), strings(&["1", "22"]));
    assert_eq!(
        tab.get_as_string(true),
        "+---+---+----+\n|   |   |    |\n+---+---+----+\n| a | 1 | 22 |\n+---+---+----+\n"
    );
}

#[test]
fn object_added_before_count_has_blank_cells() {
    let mut tab = Table::new();
    assert_eq!(tab.add_object("z".to_string(), Vec::new()), Ok("z".to_string()));
    assert_eq!(tab.set_columns(1), Ok(1));
    assert_eq!(tab.set_headers(strings(&["h"])), Ok(1));
    assert_eq!(
        tab.get_as_string(true),
        "+---+---+\n|   | h |\n+---+---+\n| z |   |\n+---+---+\n"
    );
}
