use shell_parser_surfaces_rs::ast::SurfaceTargetCharacterId;
use shell_parser_surfaces_rs::parse::parts::{
    boolean, digit_neg_i64, digit_u16, digit_u32, digit_u8, newline_body, surface_target_character_id,
    text_chars, whole_line_as_comment_line, whole_line_without_newline,
};

fn chars(s: &str) -> Vec<char> {
    text_chars(s)
}

fn remain(s: &str, p: usize) -> String {
    s.chars().skip(p).collect()
}

#[test]
fn parts_success_when_valid_str() {
    let case = "1234\r\n";
    let (p, result) = digit_u16(&chars(case), 0).unwrap();
    assert_eq!(remain(case, p), "\r\n");
    assert_eq!(result, 1234);

    let case = "0";
    let (p, result) = digit_u8(&chars(case), 0).unwrap();
    assert_eq!(remain(case, p), "");
    assert_eq!(result, 0);

    let case = "1234\r\n";
    let (p, result) = digit_neg_i64(&chars(case), 0).unwrap();
    assert_eq!(remain(case, p), "\r\n");
    assert_eq!(result, 1234);

    let case = "-1234\r\n";
    let (p, result) = digit_neg_i64(&chars(case), 0).unwrap();
    assert_eq!(remain(case, p), "\r\n");
    assert_eq!(result, -1234);

    let case = "0";
    let (p, result) = digit_neg_i64(&chars(case), 0).unwrap();
    assert_eq!(remain(case, p), "");
    assert_eq!(result, 0);
}

#[test]
fn parts_failed_when_invalid_str() {
    let case = "-1";
    assert!(digit_u8(&chars(case), 0).is_none());

    let case = "abc";
    assert!(digit_u8(&chars(case), 0).is_none());

    let case = "abc";
    assert!(digit_neg_i64(&chars(case), 0).is_none());
}

#[test]
fn digit_widths_respect_their_maxima() {
    assert!(digit_u8(&chars("255"), 0).is_some());
    assert!(digit_u8(&chars("256"), 0).is_none());
    assert!(digit_u16(&chars("65535"), 0).is_some());
    assert!(digit_u16(&chars("65536"), 0).is_none());
    assert!(digit_u32(&chars("4294967295"), 0).is_some());
    assert!(digit_u32(&chars("4294967296"), 0).is_none());
    let (_, v) = digit_u8(&chars("00000000000000000000001"), 0).unwrap();
    assert_eq!(v, 1);
    assert!(digit_neg_i64(&chars("9223372036854775807"), 0).is_some());
    assert!(digit_neg_i64(&chars("9223372036854775808"), 0).is_none());
    assert!(digit_neg_i64(&chars("-9223372036854775807"), 0).is_some());
    assert!(digit_neg_i64(&chars("-9223372036854775808"), 0).is_none());
}

#[test]
fn newline_success_when_valid_str() {
    let case = "\r\na";
    let p = newline_body(&chars(case), 0).unwrap();
    assert_eq!(remain(case, p), "a");

    let case = "\n\ra";
    let p = newline_body(&chars(case), 0).unwrap();
    assert_eq!(remain(case, p), "\ra");

    let case = "\ra";
    let p = newline_body(&chars(case), 0).unwrap();
    assert_eq!(remain(case, p), "a");
}

#[test]
fn newline_failed_when_invalid_str() {
    let case = "a";
    assert!(newline_body(&chars(case), 0).is_none());
}

#[test]
fn whole_line_success_when_valid_str() {
    let case = "\r\n";
    let (p, result) = whole_line_without_newline(&chars(case), 0).unwrap();
    assert_eq!(remain(case, p), "");
    assert_eq!(result, "".to_string());

    let case = "aaa\r\na";
    let (p, result) = whole_line_without_newline(&chars(case), 0).unwrap();
    assert_eq!(remain(case, p), "a");
    assert_eq!(result, "aaa".to_string());
}

#[test]
fn whole_line_failed_when_invalid_str() {
    let case = "aaa";
    assert!(whole_line_without_newline(&chars(case), 0).is_none());

    let case = "{    \r\n";
    assert!(whole_line_without_newline(&chars(case), 0).is_none());

    let case = "}\r\n";
    assert!(whole_line_without_newline(&chars(case), 0).is_none());
}

#[test]
fn comment_line_success_when_valid_str() {
    let case = "\r\n";
    let (p, result) = whole_line_as_comment_line(&chars(case), 0).unwrap();
    assert_eq!(remain(case, p), "");
    assert_eq!(result.body(), &"".to_string());

    let case = "aaa\r\na";
    let (p, result) = whole_line_as_comment_line(&chars(case), 0).unwrap();
    assert_eq!(remain(case, p), "a");
    assert_eq!(result.body(), &"aaa".to_string());
}

#[test]
fn comment_line_failed_when_invalid_str() {
    let case = "aaa";
    assert!(whole_line_as_comment_line(&chars(case), 0).is_none());
}

#[test]
fn boolean_success_when_valid_str() {
    let case = "true";
    let (p, result) = boolean(&chars(case), 0).unwrap();
    assert_eq!(remain(case, p), "");
    assert_eq!(result, true);

    let case = "false";
    let (p, result) = boolean(&chars(case), 0).unwrap();
    assert_eq!(remain(case, p), "");
    assert_eq!(result, false);
}

#[test]
fn boolean_failed_when_invalid_str() {
    let case = "True";
    assert!(boolean(&chars(case), 0).is_none());
}

#[test]
fn character_id_success_when_valid_str() {
    let case = "sakura.tooltips";
    let (p, result) = surface_target_character_id(&chars(case), 0).unwrap();
    assert_eq!(remain(case, p), ".tooltips");
    assert_eq!(result, SurfaceTargetCharacterId::Sakura);

    let case = "kero.tooltips";
    let (p, result) = surface_target_character_id(&chars(case), 0).unwrap();
    assert_eq!(remain(case, p), ".tooltips");
    assert_eq!(result, SurfaceTargetCharacterId::Kero);

    let case = "char502.tooltips";
    let (p, result) = surface_target_character_id(&chars(case), 0).unwrap();
    assert_eq!(remain(case, p), ".tooltips");
    assert_eq!(result, SurfaceTargetCharacterId::Char(502));
}

#[test]
fn character_id_failed_when_invalid_str() {
    let case = "kk.tooltips";
    assert!(surface_target_character_id(&chars(case), 0).is_none());
}
