use socketeer::schema::{split_statements, DASH};

fn split(script: &str) -> Vec<String> {
    split_statements(script.as_bytes())
        .into_iter()
        .map(|statement| String::from_utf8(statement).unwrap())
        .collect()
}

fn split_by_std(script: &str) -> Vec<String> {
    script.split("--").filter(|piece| !piece.is_empty()).map(|piece| piece.to_string()).collect()
}

#[test]
fn dash_is_the_ascii_hyphen() {
    assert_eq!(DASH, b'-');
}

#[test]
fn script_without_separator_is_one_statement() {
    assert_eq!(split("CREATE TABLE a (id int PRIMARY KEY);"), vec![
        "CREATE TABLE a (id int PRIMARY KEY);".to_string()
    ]);
    assert_eq!(split("a-b"), vec!["a-b".to_string()]);
    assert_eq!(split("-"), vec!["-".to_string()]);
}

#[test]
fn empty_script_has_no_statement() {
    assert!(split("").is_empty());
    assert!(split("--").is_empty());
    assert!(split("----").is_empty());
}

#[test]
fn statements_come_in_order() {
    assert_eq!(split("one--two--three"), vec!["one", "two", "three"]);
    assert_eq!(split("\nCREATE a;\n--\nCREATE b;\n"), vec!["\nCREATE a;\n", "\nCREATE b;\n"]);
}

#[test]
fn empty_pieces_are_left_out() {
    assert_eq!(split("--a----b--"), vec!["a", "b"]);
    assert_eq!(split("a--"), vec!["a"]);
    assert_eq!(split("--a"), vec!["a"]);
}

#[test]
fn separators_are_found_from_the_left_and_do_not_overlap() {
    assert_eq!(split("a---b"), vec!["a", "-b"]);
    assert_eq!(split("---"), vec!["-"]);
    assert_eq!(split("a-----b"), vec!["a", "-b"]);
    assert_eq!(split("a-"), vec!["a-"]);
}

#[test]
fn text_beyond_ascii_is_kept_whole() {
    assert_eq!(split("é--ü—x"), vec!["é", "ü—x"]);
}

#[test]
fn split_agrees_with_the_standard_library() {
    let alphabet = ['-', 'a', ' '];
    let mut scripts = vec![String::new()];
    for _ in 0..7 {
        let mut longer = Vec::new();
        for script in &scripts {
            for letter in alphabet {
                let mut next = script.clone();
                next.push(letter);
                longer.push(next);
            }
        }
        for script in &longer {
            assert_eq!(split(script), split_by_std(script), "script {:?}", script);
        }
        scripts = longer;
    }
}
