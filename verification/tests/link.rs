use cargo_nx::link::{
    checked_file_name, classify_upload_path, is_nro_extension, is_whitespace_char, nro_arguments,
    nro_file_name, parse_extra_args, split, trim, upload_destination, LinkError, UploadPath,
    DEFAULT_RETRIES, DISCOVERY_TIMEOUT_MS,
};

fn chars(text: &str) -> Vec<char> {
    text.chars().collect()
}

fn text(chars: &[char]) -> String {
    chars.iter().collect()
}

fn parsed(line: &str) -> Vec<String> {
    parse_extra_args(line.to_string())
}

#[test]
fn discovery_defaults() {
    assert_eq!(DISCOVERY_TIMEOUT_MS, 250);
    assert_eq!(DEFAULT_RETRIES, 10);
}

#[test]
fn white_space_is_what_std_calls_white_space() {
    for code in 0..=0x10ffffu32 {
        if let Some(c) = char::from_u32(code) {
            assert_eq!(is_whitespace_char(c), c.is_whitespace(), "U+{:04X}", code);
        }
    }
}

#[test]
fn trim_takes_white_space_off_both_ends() {
    assert_eq!(text(trim(&chars("  a b  "))), "a b");
    assert_eq!(text(trim(&chars("\t\n a\u{a0}b \r\n"))), "a\u{a0}b");
    assert_eq!(text(trim(&chars("\u{3000}x\u{2003}"))), "x");
    assert_eq!(text(trim(&chars("x"))), "x");
    assert_eq!(text(trim(&chars(""))), "");
    assert_eq!(text(trim(&chars(" \t \n "))), "");
}

#[test]
fn trim_agrees_with_std() {
    for line in ["", " ", "a", " a", "a ", "  a  b  ", "\u{85}a\u{1680}", "\u{200b} a", "a\u{feff}"] {
        assert_eq!(text(trim(&chars(line))), line.trim());
    }
}

#[test]
fn words_are_split_at_spaces() {
    assert_eq!(parsed("a b c"), vec!["a", "b", "c"]);
    assert_eq!(parsed("one"), vec!["one"]);
    assert_eq!(parsed("--flag value"), vec!["--flag", "value"]);
}

#[test]
fn runs_of_spaces_separate_once() {
    assert_eq!(parsed("  a   b  "), vec!["a", "b"]);
    assert_eq!(parsed("a     b"), vec!["a", "b"]);
}

#[test]
fn empty_and_blank_lines_hold_no_arguments() {
    assert_eq!(parsed(""), Vec::<String>::new());
    assert_eq!(parsed("    "), Vec::<String>::new());
    assert_eq!(parsed("\t\n"), Vec::<String>::new());
}

#[test]
fn quotes_keep_spaces_together() {
    assert_eq!(parsed("\"hello world\" x"), vec!["hello world", "x"]);
    assert_eq!(parsed("'hello world' x"), vec!["hello world", "x"]);
    assert_eq!(parsed("a \"b  c\" d"), vec!["a", "b  c", "d"]);
}

#[test]
fn a_quote_is_closed_by_its_own_kind_only() {
    assert_eq!(parsed("\"it's fine\""), vec!["it's fine"]);
    assert_eq!(parsed("'say \"hi\"'"), vec!["say \"hi\""]);
}

#[test]
fn an_open_quote_runs_to_the_end() {
    assert_eq!(parsed("\"never closed"), vec!["never closed"]);
    assert_eq!(parsed("a 'b c"), vec!["a", "b c"]);
}

#[test]
fn empty_quotes_are_no_argument() {
    assert_eq!(parsed("\"\""), Vec::<String>::new());
    assert_eq!(parsed("a '' b"), vec!["a", "b"]);
    assert_eq!(parsed("\""), Vec::<String>::new());
}

#[test]
fn a_new_argument_starts_right_behind_a_closing_quote() {
    assert_eq!(parsed("\"a b\"c d"), vec!["a b", "c", "d"]);
    assert_eq!(parsed("'a''b'"), vec!["a", "b"]);
}

#[test]
fn quotes_inside_a_word_are_plain_characters() {
    assert_eq!(parsed("a\"b c\""), vec!["a\"b", "c\""]);
    assert_eq!(parsed("it's"), vec!["it's"]);
    assert_eq!(parsed("key=\"v\""), vec!["key=\"v\""]);
}

#[test]
fn only_the_space_separates_inside_a_line() {
    assert_eq!(parsed("a\tb"), vec!["a\tb"]);
    assert_eq!(parsed("a\nb c"), vec!["a\nb", "c"]);
    assert_eq!(parsed("\ta\u{a0}b "), vec!["a\u{a0}b"]);
}

#[test]
fn arguments_may_hold_any_character() {
    assert_eq!(parsed("h\u{e9}llo \u{1f600} '\u{4e16} \u{754c}'"), vec!["h\u{e9}llo", "\u{1f600}", "\u{4e16} \u{754c}"]);
}

#[test]
fn split_does_not_trim() {
    assert_eq!(split(&chars("\ta b")), vec!["\ta", "b"]);
    assert_eq!(split(&chars(" a ")), vec!["a"]);
    assert_eq!(split(&chars("")), Vec::<String>::new());
}

#[test]
fn extra_arguments_follow_the_others() {
    let given = vec!["one".to_string(), "two words".to_string()];
    assert_eq!(
        nro_arguments(given.clone(), Some(" three 'four five' ".to_string())),
        vec!["one", "two words", "three", "four five"]
    );
    assert_eq!(nro_arguments(given.clone(), None), given);
    assert_eq!(nro_arguments(given.clone(), Some("  ".to_string())), given);
    assert_eq!(nro_arguments(Vec::new(), Some("x".to_string())), vec!["x"]);
}

#[test]
fn only_nro_is_the_extension_of_a_program() {
    assert!(is_nro_extension(&Some("nro".to_string())));
    assert!(!is_nro_extension(&Some("NRO".to_string())));
    assert!(!is_nro_extension(&Some("nr".to_string())));
    assert!(!is_nro_extension(&Some("nros".to_string())));
    assert!(!is_nro_extension(&Some("".to_string())));
    assert!(!is_nro_extension(&None));
}

#[test]
fn upload_paths_are_classified_by_extension_then_slash() {
    let nro = Some("nro".to_string());
    let txt = Some("txt".to_string());
    assert_eq!(classify_upload_path("games/a.nro", &nro), UploadPath::File);
    assert_eq!(classify_upload_path("games.nro/", &nro), UploadPath::File);
    assert_eq!(classify_upload_path("games/", &None), UploadPath::Directory);
    assert_eq!(classify_upload_path("a.txt/", &txt), UploadPath::Directory);
    assert_eq!(classify_upload_path("/", &None), UploadPath::Directory);
    assert_eq!(classify_upload_path("games", &None), UploadPath::Invalid);
    assert_eq!(classify_upload_path("a.txt", &txt), UploadPath::Invalid);
    assert_eq!(classify_upload_path("", &None), UploadPath::Invalid);
}

#[test]
fn file_name_needs_the_extension_and_a_name() {
    let nro = Some("nro".to_string());
    assert_eq!(checked_file_name(&nro, Some("a.nro".to_string())), Ok("a.nro".to_string()));
    assert_eq!(checked_file_name(&nro, None), Err(LinkError::NoFileName));
    assert_eq!(
        checked_file_name(&Some("elf".to_string()), Some("a.elf".to_string())),
        Err(LinkError::NotAnNroFile)
    );
    assert_eq!(checked_file_name(&None, Some("a".to_string())), Err(LinkError::NotAnNroFile));
    assert_eq!(checked_file_name(&None, None), Err(LinkError::NotAnNroFile));
}

#[test]
fn name_of_the_file_to_send_is_its_last_component() {
    assert_eq!(nro_file_name("app.nro"), Ok("app.nro".to_string()));
    assert_eq!(nro_file_name("target/release/app.nro"), Ok("app.nro".to_string()));
    assert_eq!(nro_file_name("./my app.v2.nro"), Ok("my app.v2.nro".to_string()));
}

#[test]
fn files_without_the_extension_are_refused() {
    assert_eq!(nro_file_name("app.elf"), Err(LinkError::NotAnNroFile));
    assert_eq!(nro_file_name("app"), Err(LinkError::NotAnNroFile));
    assert_eq!(nro_file_name("app.nro.bak"), Err(LinkError::NotAnNroFile));
    assert_eq!(nro_file_name(".nro"), Err(LinkError::NotAnNroFile));
    assert_eq!(nro_file_name("app.NRO"), Err(LinkError::NotAnNroFile));
    assert_eq!(nro_file_name(""), Err(LinkError::NotAnNroFile));
    assert_eq!(nro_file_name("dir/.."), Err(LinkError::NotAnNroFile));
}

#[test]
fn without_an_upload_path_the_file_keeps_its_name() {
    assert_eq!(upload_destination(None, "app.nro"), Ok("app.nro".to_string()));
}

#[test]
fn an_upload_path_that_names_a_program_is_taken_as_it_is() {
    assert_eq!(
        upload_destination(Some("games/other.nro"), "app.nro"),
        Ok("games/other.nro".to_string())
    );
    assert_eq!(upload_destination(Some("x.nro"), "app.nro"), Ok("x.nro".to_string()));
}

#[test]
fn an_upload_path_that_names_a_directory_gets_the_file_name() {
    assert_eq!(
        upload_destination(Some("games/"), "app.nro"),
        Ok("games/app.nro".to_string())
    );
    assert_eq!(
        upload_destination(Some("/switch/tools/"), "app.nro"),
        Ok("/switch/tools/app.nro".to_string())
    );
}

#[test]
fn other_upload_paths_are_refused() {
    assert_eq!(upload_destination(Some("games"), "app.nro"), Err(LinkError::InvalidPath));
    assert_eq!(upload_destination(Some("games/app.elf"), "app.nro"), Err(LinkError::InvalidPath));
    assert_eq!(upload_destination(Some(""), "app.nro"), Err(LinkError::InvalidPath));
}
