use shell_parser_surfaces_rs::ast::{
    GestureKind, SerikoCursorGesture, SurfaceAliasInner, SurfaceId, SurfaceTargetCharacterId,
    TooltipInner,
};
use shell_parser_surfaces_rs::parse::cursor::{cursor_gesture, cursor_name, gesture_kind};
use shell_parser_surfaces_rs::parse::parts::text_chars;
use shell_parser_surfaces_rs::parse::surface::draw_method::{ids_inner, ids_sep};
use shell_parser_surfaces_rs::parse::surface::{surface_id, surface_ids};
use shell_parser_surfaces_rs::parse::surface_alias::{surface_alias_inner, surface_alias_name};
use shell_parser_surfaces_rs::parse::tooltip::{tooltip_inner, tooltip_name};

fn chars(s: &str) -> Vec<char> {
    text_chars(s)
}

fn remain(s: &str, p: usize) -> String {
    s.chars().skip(p).collect()
}

#[test]
fn surface_ids_success_when_valid_str() {
    let case = "0,1-30,!15,!20-25";
    let (p, result) = surface_ids(&chars(case), 0).unwrap();
    assert_eq!(remain(case, p), "");
    assert_eq!(
        result,
        vec![
            SurfaceId::Unit(0),
            SurfaceId::Range(1, 30),
            SurfaceId::Not(Box::new(SurfaceId::Unit(15))),
            SurfaceId::Not(Box::new(SurfaceId::Range(20, 25))),
        ]
    );

    let case = "0";
    let (p, result) = surface_ids(&chars(case), 0).unwrap();
    assert_eq!(remain(case, p), "");
    assert_eq!(result, vec![SurfaceId::Unit(0)]);
}

#[test]
fn surface_ids_failed_when_invalid_str() {
    let case = "!!30";
    assert!(surface_ids(&chars(case), 0).is_none());
}

#[test]
fn surface_id_selector_forms() {
    let case = "7";
    let (_, result) = surface_id(&chars(case), 0).unwrap();
    assert_eq!(result, SurfaceId::Unit(7));

    let case = "7-9";
    let (_, result) = surface_id(&chars(case), 0).unwrap();
    assert_eq!(result, SurfaceId::Range(7, 9));

    let case = "!7";
    let (_, result) = surface_id(&chars(case), 0).unwrap();
    assert_eq!(result, SurfaceId::Not(Box::new(SurfaceId::Unit(7))));

    let case = "!7-9";
    let (_, result) = surface_id(&chars(case), 0).unwrap();
    assert_eq!(result, SurfaceId::Not(Box::new(SurfaceId::Range(7, 9))));

    assert!(surface_id(&chars("!"), 0).is_none());
    assert!(surface_id(&chars("x"), 0).is_none());
}

#[test]
fn ids_inner_success_when_valid_str() {
    let case = "10,20,30)";
    let (p, result) = ids_inner(&chars(case), 0).unwrap();
    assert_eq!(remain(case, p), ")");
    assert_eq!(result, vec![10, 20, 30]);

    let case = "10.20.30)";
    let (p, result) = ids_inner(&chars(case), 0).unwrap();
    assert_eq!(remain(case, p), ")");
    assert_eq!(result, vec![10, 20, 30]);

    let case = "10";
    let (p, result) = ids_inner(&chars(case), 0).unwrap();
    assert_eq!(remain(case, p), "");
    assert_eq!(result, vec![10]);
}

#[test]
fn ids_inner_failed_when_invalid_str() {
    let case = "a-20-30";
    assert!(ids_inner(&chars(case), 0).is_none());
}

#[test]
fn ids_sep_success_when_valid_str() {
    let case = "10,20,30";
    let (p, result) = ids_sep(&chars(case), 0, ',').unwrap();
    assert_eq!(remain(case, p), "");
    assert_eq!(result, vec![10, 20, 30]);

    let case = "10.20.30";
    let (p, result) = ids_sep(&chars(case), 0, '.').unwrap();
    assert_eq!(remain(case, p), "");
    assert_eq!(result, vec![10, 20, 30]);

    assert!(ids_sep(&chars("aa,bb"), 0, ',').is_none());
    assert!(ids_sep(&chars("aa.bb"), 0, '.').is_none());
}

#[test]
fn surface_alias_inner_success_when_valid_str() {
    let case = "素,[0]";
    let (p, result) = surface_alias_inner(&chars(case), 0).unwrap();
    assert_eq!(remain(case, p), "");
    assert_eq!(result, SurfaceAliasInner::new("素".to_string(), vec![0]));

    let case = "照れ,[1,101,201]";
    let (p, result) = surface_alias_inner(&chars(case), 0).unwrap();
    assert_eq!(remain(case, p), "");
    assert_eq!(
        result,
        SurfaceAliasInner::new("照れ".to_string(), vec![1, 101, 201])
    );
}

#[test]
fn surface_alias_inner_failed_when_invalid_str() {
    assert!(surface_alias_inner(&chars(",[0]"), 0).is_none());
    assert!(surface_alias_inner(&chars("a,[]"), 0).is_none());
    assert!(surface_alias_inner(&chars("a,[0"), 0).is_none());
}

#[test]
fn surface_alias_name_success_when_valid_str() {
    let case = "sakura.surface.alias\r\n";
    let (p, result) = surface_alias_name(&chars(case), 0).unwrap();
    assert_eq!(remain(case, p), "");
    assert_eq!(result, SurfaceTargetCharacterId::Sakura);

    let case = "char5.surface.alias\r\n";
    let (p, result) = surface_alias_name(&chars(case), 0).unwrap();
    assert_eq!(remain(case, p), "");
    assert_eq!(result, SurfaceTargetCharacterId::Char(5));

    assert!(surface_alias_name(&chars("sakura.surface.alias"), 0).is_none());
}

#[test]
fn gesture_kind_success_when_valid_str() {
    let cases = vec![
        ("mouseup", GestureKind::MouseUp),
        ("mousedown", GestureKind::MouseDown),
        ("mouserightdown", GestureKind::MouseRightDown),
        ("mousewheel", GestureKind::MouseWheel),
        ("mousehover", GestureKind::MouseHover),
    ];
    for (case, expected) in cases {
        let (p, result) = gesture_kind(&chars(case), 0).unwrap();
        assert_eq!(remain(case, p), "");
        assert_eq!(result, expected);
    }
    assert!(gesture_kind(&chars("mouse"), 0).is_none());
}

#[test]
fn cursor_gesture_success_when_valid_str() {
    let case = "mouseup0,Head,system:hand";
    let (p, result) = cursor_gesture(&chars(case), 0).unwrap();
    assert_eq!(remain(case, p), "");
    assert_eq!(
        result,
        SerikoCursorGesture::new(
            GestureKind::MouseUp,
            0,
            "Head".to_string(),
            "system:hand".to_string()
        )
    );

    let case = "mousedown3,,file.cur";
    let (_, result) = cursor_gesture(&chars(case), 0).unwrap();
    assert_eq!(result.target_collistion(), &"".to_string());
    assert_eq!(result.filename(), &"file.cur".to_string());
}

#[test]
fn cursor_gesture_collision_scan_runs_to_the_next_comma() {
    // The collision-name scan runs to the next comma anywhere ahead, even
    // across a newline; the classifier then decides whether such a line is
    // acceptable.
    let case = "mouseup0,He\nad,file";
    let (p, result) = cursor_gesture(&chars(case), 0).unwrap();
    assert_eq!(remain(case, p), "");
    assert_eq!(result.target_collistion(), &"He\nad".to_string());
    assert_eq!(result.filename(), &"file".to_string());
}

#[test]
fn cursor_gesture_failed_when_invalid_str() {
    assert!(cursor_gesture(&chars("mouseup0,Head"), 0).is_none());
    assert!(cursor_gesture(&chars("mouseup0,Head,"), 0).is_none());
    assert!(cursor_gesture(&chars("click0,Head,file"), 0).is_none());
}

#[test]
fn cursor_name_success_when_valid_str() {
    let case = "kero.cursor\r\n";
    let (p, result) = cursor_name(&chars(case), 0).unwrap();
    assert_eq!(remain(case, p), "");
    assert_eq!(result, SurfaceTargetCharacterId::Kero);

    assert!(cursor_name(&chars("kero.cursors\r\n"), 0).is_none());
    assert!(cursor_name(&chars("kero.curso\r\n"), 0).is_none());
}

#[test]
fn tooltip_inner_success_when_valid_str() {
    let case = "Bust,怒ります。";
    let (p, result) = tooltip_inner(&chars(case), 0).unwrap();
    assert_eq!(remain(case, p), "");
    assert_eq!(
        result,
        TooltipInner::new("Bust".to_string(), "怒ります。".to_string())
    );
}

#[test]
fn tooltip_inner_failed_when_invalid_str() {
    assert!(tooltip_inner(&chars(",desc"), 0).is_none());
    assert!(tooltip_inner(&chars("Bust,"), 0).is_none());
    assert!(tooltip_inner(&chars("Bust"), 0).is_none());
}

#[test]
fn tooltip_name_success_when_valid_str() {
    let case = "char502.tooltips\r\n";
    let (p, result) = tooltip_name(&chars(case), 0).unwrap();
    assert_eq!(remain(case, p), "");
    assert_eq!(result, SurfaceTargetCharacterId::Char(502));

    assert!(tooltip_name(&chars("kk.tooltips\r\n"), 0).is_none());
}
