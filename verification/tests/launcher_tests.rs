use summon::launcher::{open_report, open_this, Launch};

fn s(text: &str) -> String {
    text.to_string()
}

#[test]
fn a_path_is_opened_by_the_shell_between_quotes() {
    assert_eq!(
        open_this(&s("/home/u/proj")),
        Launch { program: s("powershell"), arguments: vec![s("start"), s("\"/home/u/proj\"")] }
    );
}

#[test]
fn a_path_with_spaces_stays_one_argument() {
    let launch = open_this(&s("C:\\My Files\\a b.txt"));
    assert_eq!(launch.arguments.len(), 2);
    assert_eq!(launch.arguments[1], "\"C:\\My Files\\a b.txt\"");
}

#[test]
fn a_started_process_is_confirmed_with_the_quoted_path() {
    assert_eq!(open_report(&s("/home/u/proj"), true), "\"/home/u/proj\"");
}

#[test]
fn a_process_that_did_not_start_is_reported() {
    assert_eq!(open_report(&s("/home/u/proj"), false), "Error: Failed to open file or folder.");
}
