use artisan_cli::env_file::{env_value, update_env_file, EnvFile};

#[test]
fn update_replaces_only_the_line_of_the_key() {
    assert_eq!(update_env_file("A=1\nB=2\n", "B", "3"), "A=1\nB=3\n");
}

#[test]
fn update_appends_a_key_that_is_absent() {
    assert_eq!(update_env_file("A=1\n", "B", "2"), "A=1\nB=2\n");
}

#[test]
fn update_of_an_empty_file_writes_one_line() {
    assert_eq!(update_env_file("", "API_TOKEN", "tok1"), "API_TOKEN=tok1\n");
}

#[test]
fn update_twice_writes_the_same_bytes() {
    let once = update_env_file("X=9\nAPI_TOKEN=old\nY=8\n", "API_TOKEN", "new");
    let twice = update_env_file(&once, "API_TOKEN", "new");
    assert_eq!(once, "X=9\nAPI_TOKEN=new\nY=8\n");
    assert_eq!(twice, once);
}

#[test]
fn update_twice_of_an_absent_key_adds_one_line() {
    let once = update_env_file("X=9", "K", "v");
    let twice = update_env_file(&once, "K", "v");
    assert_eq!(once, "X=9\nK=v\n");
    assert_eq!(twice, once);
}

#[test]
fn update_ends_an_open_last_line_before_it_appends() {
    assert_eq!(update_env_file("A=1", "B", "2"), "A=1\nB=2\n");
}

#[test]
fn update_keeps_one_line_of_a_key_that_occurs_twice() {
    assert_eq!(update_env_file("K=1\nA=0\nK=2\n", "K", "3"), "K=3\nA=0\n");
}

#[test]
fn update_does_not_take_a_longer_key_for_the_key() {
    assert_eq!(
        update_env_file("MY_TOKEN=a\n", "TOKEN", "b"),
        "MY_TOKEN=a\nTOKEN=b\n"
    );
    assert_eq!(
        update_env_file("TOKEN_TWO=a\n", "TOKEN", "b"),
        "TOKEN_TWO=a\nTOKEN=b\n"
    );
}

#[test]
fn update_keeps_empty_lines_and_other_text() {
    assert_eq!(
        update_env_file("# tokens\n\nA=1\n", "A", "2"),
        "# tokens\n\nA=2\n"
    );
}

#[test]
fn update_keeps_a_carriage_return_of_another_line() {
    assert_eq!(update_env_file("A=1\r\nB=2\r\n", "B", "3"), "A=1\r\nB=3\n");
}

#[test]
fn value_is_what_follows_the_first_line_of_the_key() {
    assert_eq!(env_value("A=1\nB=2\nB=3\n", "B"), Some("2".to_string()));
    assert_eq!(env_value("A=1\nB=2\n", "C"), None);
    assert_eq!(env_value("A=x=y\n", "A"), Some("x=y".to_string()));
    assert_eq!(env_value("A=\n", "A"), Some(String::new()));
    assert_eq!(env_value("", "A"), None);
}

#[test]
fn value_after_update_is_the_value_set() {
    let content = update_env_file("A=1\nB=2\n", "A", "one");
    assert_eq!(env_value(&content, "A"), Some("one".to_string()));
    assert_eq!(env_value(&content, "B"), Some("2".to_string()));
}

#[test]
fn parse_reads_lines_with_and_without_a_last_line_feed() {
    let closed = EnvFile::parse("A=1\nB=2\n");
    assert_eq!(closed.len(), 2);
    assert_eq!(closed.line(0), "A=1");
    assert_eq!(closed.line(1), "B=2");
    let open = EnvFile::parse("A=1\nB=2");
    assert_eq!(open.len(), 2);
    assert_eq!(open.line(1), "B=2");
    assert_eq!(EnvFile::parse("").len(), 0);
    assert_eq!(EnvFile::parse("\n").len(), 1);
    assert_eq!(EnvFile::new().len(), 0);
}

#[test]
fn render_ends_every_line() {
    assert_eq!(EnvFile::parse("A=1\nB=2").render(), "A=1\nB=2\n");
    assert_eq!(EnvFile::parse("").render(), "");
    assert_eq!(EnvFile::new().render(), "");
}

#[test]
fn file_update_and_get_agree() {
    let mut file = EnvFile::parse("A=1\n");
    file.update("B", "2");
    file.update("A", "3");
    assert_eq!(file.get("A"), Some("3".to_string()));
    assert_eq!(file.get("B"), Some("2".to_string()));
    assert_eq!(file.get("C"), None);
    assert_eq!(file.render(), "A=3\nB=2\n");
}

#[test]
fn update_handles_text_beyond_ascii() {
    assert_eq!(
        update_env_file("NAME=zoë\n", "NAME", "søren"),
        "NAME=søren\n"
    );
}

#[test]
fn read_of_no_file_is_an_empty_file() {
    assert_eq!(EnvFile::read(None).len(), 0);
    assert_eq!(EnvFile::read(None).render(), "");
    let file = EnvFile::read(Some("A=1\n"));
    assert_eq!(file.len(), 1);
    assert_eq!(file.get("A"), Some("1".to_string()));
}

#[test]
fn update_with_a_line_feed_in_the_value_is_not_repeated_alike() {
    let once = update_env_file("", "K", "a\nb");
    assert_eq!(once, "K=a\nb\n");
    assert_eq!(update_env_file(&once, "K", "a\nb"), "K=a\nb\nb\n");
}
