use meep::banner::{footer_line, header_line, MAN_WIDTH};
use meep::strutil::{spaces, str_eq};

#[test]
fn header_centers_the_word_between_the_titles() {
    let line = header_line("meep(1)", "MEEP", MAN_WIDTH);
    assert_eq!(line.len(), 78);
    assert_eq!(
        line,
        format!("meep(1){pad}MEEP{pad}meep(1)", pad = " ".repeat(30))
    );
}

#[test]
fn header_drops_one_space_on_odd_leftover() {
    // Width 10 around one-character texts leaves 7 to split: 3 a side.
    let line = header_line("a", "b", 10);
    assert_eq!(line, "a   b   a");
    assert_eq!(line.len(), 9);
}

#[test]
fn footer_right_aligns_to_the_width() {
    let line = footer_line("meep 0.1.0", "meep(1)", MAN_WIDTH);
    assert_eq!(line.len(), 78);
    assert!(line.starts_with("meep 0.1.0"));
    assert!(line.ends_with("meep(1)"));
    assert_eq!(&line[10..71], " ".repeat(61).as_str());
}

#[test]
fn spaces_builds_a_run_of_spaces() {
    assert_eq!(spaces(0), "");
    assert_eq!(spaces(5), "     ");
}

#[test]
fn str_eq_compares_by_characters() {
    assert!(str_eq("", ""));
    assert!(str_eq("abc", "abc"));
    assert!(!str_eq("abc", "abd"));
    assert!(!str_eq("abc", "abcd"));
    assert!(str_eq("naïve", "naïve"));
}
