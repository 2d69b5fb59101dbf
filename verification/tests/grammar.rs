use key_value::command::{operation_for, parse_line, Operation};
use key_value::text::{char_is_whitespace, join_from, tokenize};

fn set(key: &str, value: &str) -> Operation {
    Operation::SetValue { key: key.to_string(), value: value.to_string() }
}

fn get(key: &str) -> Operation {
    Operation::Get { key: key.to_string() }
}

fn delete(key: &str) -> Operation {
    Operation::Delete { key: key.to_string() }
}

fn words(items: &[&str]) -> Vec<String> {
    items.iter().map(|item| item.to_string()).collect()
}

#[test]
fn whitespace_is_what_the_standard_library_calls_whitespace() {
    for code in 0..=0x10FFFFu32 {
        if let Some(c) = char::from_u32(code) {
            assert_eq!(char_is_whitespace(c), c.is_whitespace(), "U+{:04X}", code);
        }
    }
}

#[test]
fn tokens_are_the_runs_between_whitespace() {
    assert_eq!(tokenize("SET a 1\n"), words(&["SET", "a", "1"]));
    assert_eq!(tokenize("  GET\t\tkey  \r\n"), words(&["GET", "key"]));
    assert_eq!(tokenize("one"), words(&["one"]));
    assert_eq!(tokenize(""), Vec::<String>::new());
    assert_eq!(tokenize(" \t\r\n"), Vec::<String>::new());
    assert_eq!(tokenize("a\u{00A0}b\u{3000}c\u{2003}d"), words(&["a", "b", "c", "d"]));
    assert_eq!(tokenize("h\u{00E9}llo w\u{00F6}rld"), words(&["h\u{00E9}llo", "w\u{00F6}rld"]));
}

#[test]
fn tokens_agree_with_split_whitespace() {
    let lines = [
        "SET name John Smith\n",
        "   leading and trailing   ",
        "\tmixed \u{2028} separators\u{0085}here\u{1680}",
        "x",
        "",
        "\n",
        "a  b   c    d",
        "zero\u{200B}width is no whitespace",
    ];
    for line in lines {
        let expected: Vec<String> = line.split_whitespace().map(|t| t.to_string()).collect();
        assert_eq!(tokenize(line), expected, "{:?}", line);
    }
}

#[test]
fn join_puts_one_space_between_tokens() {
    let parts = words(&["SET", "name", "John", "Smith"]);
    assert_eq!(join_from(&parts, 2), "John Smith");
    assert_eq!(join_from(&parts, 0), "SET name John Smith");
    assert_eq!(join_from(&parts, 3), "Smith");
    assert_eq!(join_from(&parts, 4), "");
}

#[test]
fn set_takes_a_key_and_a_value() {
    assert_eq!(parse_line("SET a 1\n"), set("a", "1"));
    assert_eq!(parse_line("SET a 1"), set("a", "1"));
}

#[test]
fn set_value_is_every_token_after_the_key_joined_by_single_spaces() {
    assert_eq!(parse_line("SET name John Smith\n"), set("name", "John Smith"));
    assert_eq!(parse_line("SET name   John \t  Smith  \n"), set("name", "John Smith"));
    assert_eq!(parse_line("SET k a b c d\n"), set("k", "a b c d"));
}

#[test]
fn get_and_delete_take_a_key_and_ignore_the_rest() {
    assert_eq!(parse_line("GET a\n"), get("a"));
    assert_eq!(parse_line("GET a b c\n"), get("a"));
    assert_eq!(parse_line("DELETE a\n"), delete("a"));
    assert_eq!(parse_line("DELETE a b\n"), delete("a"));
}

#[test]
fn keyword_is_matched_without_regard_to_case() {
    assert_eq!(parse_line("set a 1\n"), set("a", "1"));
    assert_eq!(parse_line("Set a 1\n"), set("a", "1"));
    assert_eq!(parse_line("sEt a 1\n"), set("a", "1"));
    assert_eq!(parse_line("get a\n"), get("a"));
    assert_eq!(parse_line("Get name\n"), get("name"));
    assert_eq!(parse_line("delete a\n"), delete("a"));
    assert_eq!(parse_line("DeLeTe a\n"), delete("a"));
}

#[test]
fn keyword_case_follows_the_upper_case_mapping_of_unicode() {
    // The long s has S as its upper case.
    assert_eq!("\u{017F}et".to_uppercase(), "SET");
    assert_eq!(parse_line("\u{017F}et a 1\n"), set("a", "1"));
    assert_eq!(parse_line("\u{0455}et a 1\n"), Operation::Invalid);
}

#[test]
fn key_and_value_are_taken_as_written() {
    assert_eq!(parse_line("set Key VaLuE\n"), set("Key", "VaLuE"));
    assert_eq!(parse_line("get KEY\n"), get("KEY"));
    assert_eq!(parse_line("SET set get\n"), set("set", "get"));
}

#[test]
fn too_few_tokens_are_invalid() {
    assert_eq!(parse_line("SET\n"), Operation::Invalid);
    assert_eq!(parse_line("SET a\n"), Operation::Invalid);
    assert_eq!(parse_line("GET\n"), Operation::Invalid);
    assert_eq!(parse_line("DELETE\n"), Operation::Invalid);
    assert_eq!(parse_line("DELETE   \n"), Operation::Invalid);
}

#[test]
fn blank_lines_are_invalid() {
    assert_eq!(parse_line(""), Operation::Invalid);
    assert_eq!(parse_line("\n"), Operation::Invalid);
    assert_eq!(parse_line("   \t \r\n"), Operation::Invalid);
}

#[test]
fn other_keywords_are_invalid() {
    assert_eq!(parse_line("FOO\n"), Operation::Invalid);
    assert_eq!(parse_line("PUT a 1\n"), Operation::Invalid);
    assert_eq!(parse_line("SETS a 1\n"), Operation::Invalid);
    assert_eq!(parse_line("GE a\n"), Operation::Invalid);
    assert_eq!(parse_line("DEL a\n"), Operation::Invalid);
    assert_eq!(parse_line("a SET 1\n"), Operation::Invalid);
}

#[test]
fn operation_for_takes_the_keyword_as_given() {
    let tokens = words(&["set", "name", "John", "Smith"]);
    assert_eq!(operation_for("SET", &tokens), set("name", "John Smith"));
    assert_eq!(operation_for("GET", &tokens), get("name"));
    assert_eq!(operation_for("DELETE", &tokens), delete("name"));
    assert_eq!(operation_for("set", &tokens), Operation::Invalid);
    assert_eq!(operation_for("", &tokens), Operation::Invalid);
    assert_eq!(operation_for("SET", &words(&["SET", "name"])), Operation::Invalid);
    assert_eq!(operation_for("GET", &words(&["GET"])), Operation::Invalid);
    assert_eq!(operation_for("SET", &Vec::new()), Operation::Invalid);
}

#[test]
fn a_copy_of_an_operation_equals_it() {
    let op = set("k", "v");
    assert_eq!(op.clone(), op);
    assert_eq!(Operation::Invalid.clone(), Operation::Invalid);
}
