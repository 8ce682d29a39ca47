use shell_parser_surfaces_rs::ast::{
    Brace, CommentLine, Descript, DescriptInner, GestureKind, LineContainer, SerikoCursor,
    SerikoCursorGesture, SortOrder, SurfaceAlias, SurfaceAliasInner, SurfaceTargetCharacterId,
    Tooltip, TooltipInner,
};
use shell_parser_surfaces_rs::parse::blocks::{parse_block, parse_brace_block};
use shell_parser_surfaces_rs::parse::descript::{descript_inner, descript_name, sort_order};
use shell_parser_surfaces_rs::parse::parts::text_chars;

fn chars(s: &str) -> Vec<char> {
    text_chars(s)
}

fn remain(s: &str, p: usize) -> String {
    s.chars().skip(p).collect()
}

#[test]
fn brace_descript_success_when_valid_str() {
    let case = "\n\ndescript\n    {\n        version,1\n        maxwidth,320\n    }\n";
    let (p, result) = parse_brace_block::<Descript>(&chars(case), 0).unwrap();
    assert_eq!(remain(case, p), "");
    assert_eq!(
        result.header_comments(),
        &vec![
            CommentLine::new("".to_string()),
            CommentLine::new("".to_string())
        ]
    );
    assert_eq!(
        result.body(),
        &Brace::Descript(Descript::new(vec![
            LineContainer::Body(DescriptInner::Version(1)),
            LineContainer::Body(DescriptInner::MaxWidth(320))
        ]))
    );
}

#[test]
fn brace_descript_failed_when_invalid_str() {
    let case = "descript{}";
    assert!(parse_brace_block::<Descript>(&chars(case), 0).is_none());
}

#[test]
fn descript_success_when_valid_str() {
    let case = "descript\n    {\n        version,1\n        maxwidth,320\n    }\n";
    let (p, result) = parse_block::<Descript>(&chars(case), 0).unwrap();
    assert_eq!(remain(case, p), "");
    assert_eq!(
        result.lines(),
        &vec![
            LineContainer::Body(DescriptInner::Version(1)),
            LineContainer::Body(DescriptInner::MaxWidth(320))
        ]
    );

    let case = "descript\n    {\n        version,1\n        maxwidth,320\ncollision-sort,ascend\nanimation-sort,descend\n\n    }";
    let (p, result) = parse_block::<Descript>(&chars(case), 0).unwrap();
    assert_eq!(remain(case, p), "");
    assert_eq!(
        result.lines(),
        &vec![
            LineContainer::Body(DescriptInner::Version(1)),
            LineContainer::Body(DescriptInner::MaxWidth(320)),
            LineContainer::Body(DescriptInner::CollistionSort(SortOrder::Ascend)),
            LineContainer::Body(DescriptInner::AnimationSort(SortOrder::Descend)),
            LineContainer::Comment(CommentLine::new("".to_string())),
        ]
    );

    let case = "descript\n{\n}\n";
    assert!(parse_block::<Descript>(&chars(case), 0).is_some());
}

#[test]
fn descript_failed_when_invalid_str() {
    let case = "\ndescript {\nversion,1\n}\n";
    assert!(parse_block::<Descript>(&chars(case), 0).is_none());

    let case = "\ndescript\n{\nversion,1}\n";
    assert!(parse_block::<Descript>(&chars(case), 0).is_none());
}

#[test]
fn descript_name_success_when_valid_str() {
    let case = "descript\r\n{";
    let p = descript_name(&chars(case), 0).unwrap();
    assert_eq!(remain(case, p), "{");
}

#[test]
fn descript_name_failed_when_invalid_str() {
    let case = "descipt";
    assert!(descript_name(&chars(case), 0).is_none());
}

#[test]
fn descript_inner_success_when_valid_str() {
    let case = "version,1\r\n";
    let (p, result) = descript_inner(&chars(case), 0).unwrap();
    assert_eq!(remain(case, p), "\r\n");
    assert_eq!(result, DescriptInner::Version(1));

    let case = "version,0";
    let (p, result) = descript_inner(&chars(case), 0).unwrap();
    assert_eq!(remain(case, p), "");
    assert_eq!(result, DescriptInner::Version(0));

    let case = "maxwidth,100\r\n";
    let (p, result) = descript_inner(&chars(case), 0).unwrap();
    assert_eq!(remain(case, p), "\r\n");
    assert_eq!(result, DescriptInner::MaxWidth(100));

    let case = "collision-sort,ascend\r\n";
    let (p, result) = descript_inner(&chars(case), 0).unwrap();
    assert_eq!(remain(case, p), "\r\n");
    assert_eq!(result, DescriptInner::CollistionSort(SortOrder::Ascend));

    let case = "collision-sort,descend\r\n";
    let (_, result) = descript_inner(&chars(case), 0).unwrap();
    assert_eq!(result, DescriptInner::CollistionSort(SortOrder::Descend));

    let case = "animation-sort,ascend\r\n";
    let (_, result) = descript_inner(&chars(case), 0).unwrap();
    assert_eq!(result, DescriptInner::AnimationSort(SortOrder::Ascend));

    let case = "animation-sort,descend\r\n";
    let (_, result) = descript_inner(&chars(case), 0).unwrap();
    assert_eq!(result, DescriptInner::AnimationSort(SortOrder::Descend));
}

#[test]
fn descript_inner_failed_when_invalid_str() {
    assert!(descript_inner(&chars("version,-1\r\n"), 0).is_none());
    assert!(descript_inner(&chars("vertion,1\r\n"), 0).is_none());
    assert!(descript_inner(&chars("maxwidth,-1\r\n"), 0).is_none());
    assert!(descript_inner(&chars("collision-sort,desssend\r\n"), 0).is_none());
    assert!(descript_inner(&chars("animation-sort,desssend\r\n"), 0).is_none());
}

#[test]
fn sort_order_success_when_valid_str() {
    let case = "ascend";
    let (p, result) = sort_order(&chars(case), 0).unwrap();
    assert_eq!(remain(case, p), "");
    assert_eq!(result, SortOrder::Ascend);

    let case = "descend";
    let (p, result) = sort_order(&chars(case), 0).unwrap();
    assert_eq!(remain(case, p), "");
    assert_eq!(result, SortOrder::Descend);
}

#[test]
fn brace_surface_alias_success_when_valid_str() {
    let case = "\n\nsakura.surface.alias\n{\n素,[0]\n照れ,[1,101,201]\n驚き,[2]\n}";
    let (p, result) = parse_brace_block::<SurfaceAlias>(&chars(case), 0).unwrap();
    assert_eq!(remain(case, p), "");
    assert_eq!(
        result.header_comments(),
        &vec![
            CommentLine::new("".to_string()),
            CommentLine::new("".to_string())
        ]
    );
    assert_eq!(
        result.body(),
        &Brace::SurfaceAlias(SurfaceAlias::new(
            SurfaceTargetCharacterId::Sakura,
            vec![
                LineContainer::Body(SurfaceAliasInner::new("素".to_string(), vec![0])),
                LineContainer::Body(SurfaceAliasInner::new(
                    "照れ".to_string(),
                    vec![1, 101, 201]
                )),
                LineContainer::Body(SurfaceAliasInner::new("驚き".to_string(), vec![2])),
            ]
        ))
    );
}

#[test]
fn brace_surface_alias_failed_when_invalid_str() {
    let case = "sakura.surface.alias{}";
    assert!(parse_brace_block::<SurfaceAlias>(&chars(case), 0).is_none());
}

#[test]
fn brace_cursor_success_when_valid_str() {
    let case = "\n\nsakura.cursor\n{\nmouseup0,Head,system:hand\nmousedown0,Head,system:finger\n\nmouseup1,Bust,system:hand\nmousedown1,Bust,system:grip\n}\n";
    let (p, result) = parse_brace_block::<SerikoCursor>(&chars(case), 0).unwrap();
    assert_eq!(remain(case, p), "");
    assert_eq!(
        result.header_comments(),
        &vec![
            CommentLine::new("".to_string()),
            CommentLine::new("".to_string())
        ]
    );
    assert_eq!(
        result.body(),
        &Brace::Cursor(SerikoCursor::new(
            SurfaceTargetCharacterId::Sakura,
            vec![
                LineContainer::Body(SerikoCursorGesture::new(
                    GestureKind::MouseUp,
                    0,
                    "Head".to_string(),
                    "system:hand".to_string()
                )),
                LineContainer::Body(SerikoCursorGesture::new(
                    GestureKind::MouseDown,
                    0,
                    "Head".to_string(),
                    "system:finger".to_string()
                )),
                LineContainer::Comment(CommentLine::new("".to_string())),
                LineContainer::Body(SerikoCursorGesture::new(
                    GestureKind::MouseUp,
                    1,
                    "Bust".to_string(),
                    "system:hand".to_string()
                )),
                LineContainer::Body(SerikoCursorGesture::new(
                    GestureKind::MouseDown,
                    1,
                    "Bust".to_string(),
                    "system:grip".to_string()
                )),
            ]
        ))
    );
}

#[test]
fn brace_tooltip_success_when_valid_str() {
    let case = "\n\nsakura.tooltips\n{\nBust,怒ります。\nHead,つつかれると痛いです。\nShoulder,つつくとコミュニケートボックスを表示します。\n}";
    let (p, result) = parse_brace_block::<Tooltip>(&chars(case), 0).unwrap();
    assert_eq!(remain(case, p), "");
    assert_eq!(
        result.body(),
        &Brace::Tooltip(Tooltip::new(
            SurfaceTargetCharacterId::Sakura,
            vec![
                LineContainer::Body(TooltipInner::new(
                    "Bust".to_string(),
                    "怒ります。".to_string()
                )),
                LineContainer::Body(TooltipInner::new(
                    "Head".to_string(),
                    "つつかれると痛いです。".to_string()
                )),
                LineContainer::Body(TooltipInner::new(
                    "Shoulder".to_string(),
                    "つつくとコミュニケートボックスを表示します。".to_string()
                )),
            ]
        ))
    );
}
