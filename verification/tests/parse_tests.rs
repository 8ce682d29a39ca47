use encoding_rs::{SHIFT_JIS, UTF_8};

use shell_parser_surfaces_rs::ast::{Brace, Charset, CommentLine, LineContainer, SurfaceInner};
use shell_parser_surfaces_rs::decoding::{decode, decode_bytes, DecodeError};
use shell_parser_surfaces_rs::parse::charset::{charset_line, charset_value};
use shell_parser_surfaces_rs::parse::parts::text_chars;
use shell_parser_surfaces_rs::parse::{brace, braces, parse, seriko};

fn chars(s: &str) -> Vec<char> {
    text_chars(s)
}

fn remain(s: &str, p: usize) -> String {
    s.chars().skip(p).collect()
}

const BIG_CASE: &str = "\ncharset,Shift_JIS\n\ndescript\n{\nversion,1\n}\n\nsurface0\n{\nanimation0.interval,sometimes\nanimation0.pattern0,overlay,101,100,168,67\nanimation0.pattern1,overlay,100,100,168,67\nanimation0.pattern2,overlay,101,100,168,67\nanimation0.pattern3,overlay,-1,100,168,67\n}\n\nsurface1\n{\nelement0,overlay,body0.png,0,0\nelement1,overlay,face1.png,0,0\n}\n\nsurface10\n{\ncollision0,40,56,95,90,Head\n\nsakura.balloon.offsetx,80\nsakura.balloon.offsety,-100\nkero.balloon.offsetx,-30\nkero.balloon.offsety,20\n}\n\n// SSPのみで有効な記法 ←このようにコメント行は//から始める\nsurface.append0-9\n{\ncollision0,188,25,252,63,Head\ncollision1,190,92,236,118,Face\ncollision2,180,191,220,222,Bust\ncollision3,154,311,248,362,Skirt\n}\n// aaa\n";

#[test]
fn parse_success_when_valid_str() {
    let case_raw = "\ncharset,Shift_JIS\n\ndescript\n{\nversion,1\n}\n\nsurface0\n{\nanimation0.interval,sometimes\nanimation0.pattern0,overlay,101,100,168,67\nanimation0.pattern1,overlay,100,100,168,67\nanimation0.pattern2,overlay,101,100,168,67\nanimation0.pattern3,overlay,-1,100,168,67\n}\n";
    let (case, _, _) = SHIFT_JIS.encode(case_raw);
    let result = decode_bytes(&case).unwrap();
    assert_eq!(result, case_raw);

    let result = parse(BIG_CASE).unwrap();
    assert_eq!(result.charset(), &Charset::ShiftJIS);
    assert!(matches!(
        result.braces().get(0).unwrap().body(),
        Brace::Descript(_)
    ));
    assert!(matches!(
        result.braces().get(1).unwrap().body(),
        Brace::Surface(_)
    ));
    assert!(matches!(
        result.braces().get(2).unwrap().body(),
        Brace::Surface(_)
    ));
    assert!(matches!(
        result.braces().get(3).unwrap().body(),
        Brace::Surface(_)
    ));
    assert!(matches!(
        result.braces().get(4).unwrap().body(),
        Brace::SurfaceAppend(_)
    ));

    let case = "charset,UTF-8";
    let result = parse(case).unwrap();
    assert_eq!(result.charset(), &Charset::UTF8);
    assert!(result.braces().is_empty());

    let result = seriko(&chars(BIG_CASE)).unwrap();
    assert_eq!(result.charset(), &Charset::ShiftJIS);
    assert!(matches!(
        result.braces().get(0).unwrap().body(),
        Brace::Descript(_)
    ));
    assert!(matches!(
        result.braces().get(4).unwrap().body(),
        Brace::SurfaceAppend(_)
    ));

    let case = "charset,UTF-8";
    let result = seriko(&chars(case)).unwrap();
    assert_eq!(result.charset(), &Charset::UTF8);
    assert!(result.braces().is_empty());
}

#[test]
fn parse_failed_when_invalid_str() {
    let case = "";
    assert!(parse(case).is_err());

    let case = "descript\n{\n}";
    assert!(parse(case).is_err());

    let case = "\ncharset,Shift_JIS\ndescript\n{\n";
    assert!(parse(case).is_err());
}

#[test]
fn unclosed_block_is_an_error_not_a_partial_document() {
    let case = "charset,UTF-8\ndescript\n{\nversion,1\n";
    assert!(parse(case).is_err());

    let case = "charset,UTF-8\nsurface0\n{\ncollision0,1,2,3,4,Head\n";
    assert!(parse(case).is_err());

    let closed = "charset,UTF-8\nsurface0\n{\ncollision0,1,2,3,4,Head\n}\n";
    assert!(parse(closed).is_ok());
}

#[test]
fn unparsed_remainder_offset_is_reported() {
    let case = "charset,UTF-8\ndescript\n{\nversion,1\n";
    let err = parse(case).unwrap_err();
    // Everything after the charset line is swallowed as trailing comments
    // until the `{` line, which nothing can consume.
    let unconsumed: String = case.chars().skip(err.offset).collect();
    assert_eq!(unconsumed, "{\nversion,1\n");
}

#[test]
fn blank_and_unrecognized_lines_become_comments_in_place() {
    let case = "charset,UTF-8\nsurface0\n{\ncollision0,40,56,95,90,Head\n\nnot a real line\nsakura.balloon.offsetx,80\n}\n";
    let result = parse(case).unwrap();
    let body = match result.braces().get(0).unwrap().body() {
        Brace::Surface(s) => s,
        _ => panic!("expected a surface block"),
    };
    assert_eq!(body.lines().len(), 4);
    assert!(matches!(
        body.lines().get(0).unwrap(),
        LineContainer::Body(SurfaceInner::Collision(_))
    ));
    assert_eq!(
        body.lines().get(1).unwrap(),
        &LineContainer::Comment(CommentLine::new("".to_string()))
    );
    assert_eq!(
        body.lines().get(2).unwrap(),
        &LineContainer::Comment(CommentLine::new("not a real line".to_string()))
    );
    assert!(matches!(
        body.lines().get(3).unwrap(),
        LineContainer::Body(SurfaceInner::SakuraBalloonOffsetX(80))
    ));
}

#[test]
fn body_comment_lines_keep_leading_whitespace() {
    let case = "charset,UTF-8\nsurface0\n{\n   \n  junk line  \n    }\n";
    let result = parse(case).unwrap();
    let body = match result.braces().get(0).unwrap().body() {
        Brace::Surface(s) => s,
        _ => panic!("expected a surface block"),
    };
    assert_eq!(body.lines().len(), 2);
    assert_eq!(
        body.lines().get(0).unwrap(),
        &LineContainer::Comment(CommentLine::new("   ".to_string()))
    );
    assert_eq!(
        body.lines().get(1).unwrap(),
        &LineContainer::Comment(CommentLine::new("  junk line  ".to_string()))
    );
}

#[test]
fn braces_success_when_valid_str() {
    let case = "\n\ndescript\n{\n}\n\nsurface0\n{\n}";
    let (p, result) = braces(&chars(case), 0);
    assert_eq!(remain(case, p), "");
    assert!(matches!(result.get(0).unwrap().body(), Brace::Descript(_)));
    assert!(matches!(result.get(1).unwrap().body(), Brace::Surface(_)));
}

#[test]
fn brace_success_when_valid_str() {
    let case = "descript\r\n{\r\n}\r\n";
    let (p, result) = brace(&chars(case), 0).unwrap();
    assert_eq!(remain(case, p), "");
    assert!(matches!(result.body(), Brace::Descript(_)));

    let case = "surface0\r\n{\r\n}\r\n";
    let (p, result) = brace(&chars(case), 0).unwrap();
    assert_eq!(remain(case, p), "");
    assert!(matches!(result.body(), Brace::Surface(_)));

    let case = "surface.append0\r\n{\r\n}\r\n";
    let (p, result) = brace(&chars(case), 0).unwrap();
    assert_eq!(remain(case, p), "");
    assert!(matches!(result.body(), Brace::SurfaceAppend(_)));

    let case = "sakura.surface.alias\r\n{\r\n}\r\n";
    let (p, result) = brace(&chars(case), 0).unwrap();
    assert_eq!(remain(case, p), "");
    assert!(matches!(result.body(), Brace::SurfaceAlias(_)));

    let case = "sakura.cursor\r\n{\r\n}\r\n";
    let (p, result) = brace(&chars(case), 0).unwrap();
    assert_eq!(remain(case, p), "");
    assert!(matches!(result.body(), Brace::Cursor(_)));

    let case = "sakura.tooltips\r\n{\r\n}\r\n";
    let (p, result) = brace(&chars(case), 0).unwrap();
    assert_eq!(remain(case, p), "");
    assert!(matches!(result.body(), Brace::Tooltip(_)));
}

#[test]
fn brace_failed_when_invalid_str() {
    let case = "descript{}";
    assert!(brace(&chars(case), 0).is_none());
}

#[test]
fn sucess_when_valid_str() {
    let case = "charset,Shift_JIS";
    let (p, result) = charset_line(&chars(case), 0).unwrap();
    assert_eq!(remain(case, p), "");
    assert_eq!(result, Charset::ShiftJIS);

    let case = "charset,UTF-8\r\n\r\n";
    let (p, result) = charset_line(&chars(case), 0).unwrap();
    assert_eq!(remain(case, p), "\r\n");
    assert_eq!(result, Charset::UTF8);
}

#[test]
fn charset_failed_when_invalid_str() {
    let case = "// あいうえお\n// かきくけこ\n\n";
    assert!(charset_line(&chars(case), 0).is_none());

    let case = "surface0\n{\n}\n";
    assert!(charset_line(&chars(case), 0).is_none());

    let case = "charset,x76";
    assert!(charset_line(&chars(case), 0).is_none());
}

#[test]
fn sucess_when_valid_str_ascii() {
    let case = "ASCII\r\n";
    let (p, result) = charset_value(&chars(case), 0).unwrap();
    assert_eq!(remain(case, p), "\r\n");
    assert_eq!(result, Charset::ASCII);
}

#[test]
fn sucess_when_valid_str_shift_jis() {
    let case = "Shift_JIS\r\n";
    let (p, result) = charset_value(&chars(case), 0).unwrap();
    assert_eq!(remain(case, p), "\r\n");
    assert_eq!(result, Charset::ShiftJIS);
}

#[test]
fn sucess_when_valid_str_utf_8() {
    let case = "UTF-8\r\n";
    let (p, result) = charset_value(&chars(case), 0).unwrap();
    assert_eq!(remain(case, p), "\r\n");
    assert_eq!(result, Charset::UTF8);
}

#[test]
fn decoding_success_when_valid_str() {
    let case_raw = "charset,Shift_JIS\n// あいうえおかきくけこ\n";
    let (case, _, _) = SHIFT_JIS.encode(case_raw);
    let result = decode(&case, &Charset::ShiftJIS).unwrap();
    assert_eq!(result, case_raw);

    let case_raw = "charset,UTF-8\n// あいうえおかきくけこ\n";
    let (case, _, _) = UTF_8.encode(case_raw);
    let result = decode(&case, &Charset::UTF8).unwrap();
    assert_eq!(result, case_raw);
}

#[test]
fn decoding_failed_when_invalid_str() {
    let case_raw = "charset,Shift_JIS\n// あいうえおかきくけこ\n";
    let (case, _, _) = UTF_8.encode(case_raw);
    assert!(decode(&case, &Charset::ShiftJIS).is_err());
}

#[test]
fn shift_jis_round_trip_preserves_the_text() {
    let case_raw = "charset,Shift_JIS\n// 立ち絵のコメント\nsurface0\n{\nelement0,overlay,体.png,0,0\ncollision0,40,56,95,90,頭\n}\n";
    let (case, _, _) = SHIFT_JIS.encode(case_raw);
    let decoded = decode_bytes(&case).unwrap();
    assert_eq!(decoded, case_raw);
    let document = parse(&decoded).unwrap();
    assert_eq!(document.charset(), &Charset::ShiftJIS);
}

#[test]
fn decode_bytes_fails_on_misdeclared_charset() {
    let case_raw = "charset,Shift_JIS\n// あいうえおかきくけこ\n";
    let (case, _, _) = UTF_8.encode(case_raw);
    let err = decode_bytes(&case).unwrap_err();
    assert_eq!(err, DecodeError::DecodeFailed(Charset::ShiftJIS));
}

#[test]
fn decode_bytes_fails_without_a_charset_declaration() {
    let bytes: Vec<u8> = "// only a comment\n".bytes().collect();
    let err = decode_bytes(&bytes).unwrap_err();
    assert_eq!(err, DecodeError::CharsetNotFound);
}

#[test]
fn ascii_and_default_charsets_decode_as_utf8() {
    let case_raw = "charset,ASCII\nsurface0\n{\n}\n";
    let (case, _, _) = UTF_8.encode(case_raw);
    let decoded = decode_bytes(&case).unwrap();
    assert_eq!(decoded, case_raw);
    assert!(decode(&case, &Charset::Default).is_ok());
}
