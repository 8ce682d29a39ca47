use shell_parser_surfaces_rs::ast::{
    AnimationInterval, AnimationOptionKind, AnimationPatternDrawMethod, AnimationPatternProperty,
    CollisionExKind, DrawMethod, DrawMethodOnAnimation, LineContainer, Surface, SurfaceAnimationOption,
    SurfaceAppend, SurfaceCollision, SurfaceCollisionEx, SurfaceId, SurfaceInner,
};
use shell_parser_surfaces_rs::parse::blocks::parse_block;
use shell_parser_surfaces_rs::parse::parts::text_chars;
use shell_parser_surfaces_rs::parse::surface::animation_collision::{
    animation_collision, animation_collision_ex,
};
use shell_parser_surfaces_rs::ast::SurfaceAnimationInterval;
use shell_parser_surfaces_rs::parse::surface::animation_interval::{
    animation_interval, animation_interval_defines, animation_interval_v0, animation_interval_v1,
};
use shell_parser_surfaces_rs::parse::surface::animation_option::animation_option;
use shell_parser_surfaces_rs::parse::surface::animation_pattern::{
    animation_pattern, animation_pattern_property_v1, animation_pattern_v0, animation_pattern_v1,
};
use shell_parser_surfaces_rs::parse::surface::collision::{collision, collision_ex};
use shell_parser_surfaces_rs::parse::surface::draw_method::{
    draw_method, draw_method_on_animation, ids,
};
use shell_parser_surfaces_rs::parse::surface::element::element;
use shell_parser_surfaces_rs::parse::surface::offset::surface_offset;
use shell_parser_surfaces_rs::parse::surface::{surface_append_name, surface_name};

fn chars(s: &str) -> Vec<char> {
    text_chars(s)
}

fn remain(s: &str, p: usize) -> String {
    s.chars().skip(p).collect()
}

#[test]
fn draw_method_tags_parse_in_full() {
    let cases = vec![
        ("base\r\n", DrawMethod::Base, "\r\n"),
        ("overlay", DrawMethod::Overlay, ""),
        ("overlayfast", DrawMethod::Overlayfast, ""),
        ("overlaymultiply", DrawMethod::Overlaymultiply, ""),
        ("replace", DrawMethod::Replace, ""),
        ("interpolate", DrawMethod::Interpolate, ""),
        ("asis", DrawMethod::Asis, ""),
        ("move", DrawMethod::Move, ""),
        ("bind", DrawMethod::Bind, ""),
        ("add", DrawMethod::Add, ""),
        ("reduce", DrawMethod::Reduce, ""),
    ];
    for (case, expected, rest) in cases {
        let (p, result) = draw_method(&chars(case), 0).unwrap();
        assert_eq!(remain(case, p), rest);
        assert_eq!(result, expected);
    }
    assert!(draw_method(&chars("somethingwrong"), 0).is_none());
}

#[test]
fn draw_method_on_animation_success_when_valid_str() {
    let case = "insert,10";
    let (p, result) = draw_method_on_animation(&chars(case), 0).unwrap();
    assert_eq!(remain(case, p), "");
    assert_eq!(result, DrawMethodOnAnimation::Insert(10));

    let case = "start,10";
    let (p, result) = draw_method_on_animation(&chars(case), 0).unwrap();
    assert_eq!(remain(case, p), "");
    assert_eq!(result, DrawMethodOnAnimation::Start(10));

    let case = "stop,10";
    let (p, result) = draw_method_on_animation(&chars(case), 0).unwrap();
    assert_eq!(remain(case, p), "");
    assert_eq!(result, DrawMethodOnAnimation::Stop(10));

    let case = "alternativestart,[10,20]";
    let (p, result) = draw_method_on_animation(&chars(case), 0).unwrap();
    assert_eq!(remain(case, p), "");
    assert_eq!(result, DrawMethodOnAnimation::Alternativestart(vec![10, 20]));

    let case = "alternativestop,[10,20]";
    let (p, result) = draw_method_on_animation(&chars(case), 0).unwrap();
    assert_eq!(remain(case, p), "");
    assert_eq!(result, DrawMethodOnAnimation::Alternativestop(vec![10, 20]));

    let case = "parallelstart,[10,20]";
    let (p, result) = draw_method_on_animation(&chars(case), 0).unwrap();
    assert_eq!(remain(case, p), "");
    assert_eq!(result, DrawMethodOnAnimation::Parallelstart(vec![10, 20]));

    let case = "parallelstop,[10,20]";
    let (p, result) = draw_method_on_animation(&chars(case), 0).unwrap();
    assert_eq!(remain(case, p), "");
    assert_eq!(result, DrawMethodOnAnimation::Parallelstop(vec![10, 20]));
}

#[test]
fn draw_method_on_animation_failed_when_invalid_str() {
    let case = "somethingwrong";
    assert!(draw_method_on_animation(&chars(case), 0).is_none());
}

#[test]
fn draw_method_success_when_valid_str() {
    let case = "[10,20,30]";
    let (p, result) = ids(&chars(case), 0).unwrap();
    assert_eq!(remain(case, p), "");
    assert_eq!(result, vec![10, 20, 30]);

    let case = "(10.20.30)";
    let (p, result) = ids(&chars(case), 0).unwrap();
    assert_eq!(remain(case, p), "");
    assert_eq!(result, vec![10, 20, 30]);

    let case = "[10]a";
    let (p, result) = ids(&chars(case), 0).unwrap();
    assert_eq!(remain(case, p), "a");
    assert_eq!(result, vec![10]);

    let case = "(10)a";
    let (p, result) = ids(&chars(case), 0).unwrap();
    assert_eq!(remain(case, p), "a");
    assert_eq!(result, vec![10]);
}

#[test]
fn draw_method_failed_when_invalid_str() {
    let case = "{10}";
    assert!(ids(&chars(case), 0).is_none());
}

#[test]
fn ids_reject_mixed_separators() {
    assert!(ids(&chars("[10,20.30]"), 0).is_none());
    assert!(ids(&chars("[10,20,30)"), 0).is_none());
}

#[test]
fn collision_success_when_valid_str() {
    let case = "collision2,10,10,100,100,Head";
    let (p, result) = collision(&chars(case), 0).unwrap();
    assert_eq!(remain(case, p), "");
    assert_eq!(
        result,
        SurfaceCollision::new(2, 10, 10, 100, 100, "Head".to_string())
    );
}

#[test]
fn collision_failed_when_invalid_str() {
    let case = "collision2,10,10,100,100";
    assert!(collision(&chars(case), 0).is_none());
}

#[test]
fn collision_ex_shapes_parse() {
    let case = "collisionex0,Head,rect,100,100,200,300";
    let (p, result) = collision_ex(&chars(case), 0).unwrap();
    assert_eq!(remain(case, p), "");
    assert_eq!(
        result,
        SurfaceCollisionEx::new(
            0,
            "Head".to_string(),
            CollisionExKind::Rect(100, 100, 200, 300)
        )
    );

    let case = "collisionex1,Face,ellipse,-1,-2,3,4";
    let (_, result) = collision_ex(&chars(case), 0).unwrap();
    assert_eq!(result.kind(), &CollisionExKind::Ellipse(-1, -2, 3, 4));

    let case = "collisionex2,Bust,circle,50,60,10";
    let (_, result) = collision_ex(&chars(case), 0).unwrap();
    assert_eq!(result.kind(), &CollisionExKind::Circle(50, 60, 10));

    let case = "collisionex3,Skirt,polygon,1,2,3,4,5";
    let (_, result) = collision_ex(&chars(case), 0).unwrap();
    assert_eq!(result.kind(), &CollisionExKind::Polygon(vec![1, 2, 3, 4, 5]));

    let case = "collisionex4,Hand,region,mask.png,255,0,128";
    let (_, result) = collision_ex(&chars(case), 0).unwrap();
    assert_eq!(
        result.kind(),
        &CollisionExKind::Region("mask.png".to_string(), 255, 0, 128, None)
    );

    let case = "collisionex5,Hand,region,mask.png,255,0,128,true";
    let (_, result) = collision_ex(&chars(case), 0).unwrap();
    assert_eq!(
        result.kind(),
        &CollisionExKind::Region("mask.png".to_string(), 255, 0, 128, Some(true))
    );
}

#[test]
fn collision_ex_failed_when_invalid_str() {
    assert!(collision_ex(&chars("collisionex0,Head,rect,100,100,200,"), 0).is_none());
    assert!(collision_ex(&chars("collisionex0,Head,square,1,2,3,4"), 0).is_none());
    assert!(collision_ex(&chars("collisionex0,Head,polygon"), 0).is_none());
}

#[test]
fn animation_collision_success_when_valid_str() {
    let case = "animation2.collision0,10,10,200,100,Head";
    let (p, result) = animation_collision(&chars(case), 0).unwrap();
    assert_eq!(remain(case, p), "");
    assert_eq!(result.id(), &2);
    assert_eq!(
        result.collision(),
        &SurfaceCollision::new(0, 10, 10, 200, 100, "Head".to_string())
    );

    let case = "animation2.collision0,10,10,200,100";
    assert!(animation_collision(&chars(case), 0).is_none());
}

#[test]
fn animation_collision_ex_success_when_valid_str() {
    let case = "animation2.collisionex0,Head,rect,100,100,200,300";
    let (p, result) = animation_collision_ex(&chars(case), 0).unwrap();
    assert_eq!(remain(case, p), "");
    assert_eq!(result.id(), &2);
    assert_eq!(
        result.collision(),
        &SurfaceCollisionEx::new(
            0,
            "Head".to_string(),
            CollisionExKind::Rect(100, 100, 200, 300)
        )
    );

    let case = "animation2.collisionex0,Head,rect,100,100,200,";
    assert!(animation_collision_ex(&chars(case), 0).is_none());
}

#[test]
fn element_success_when_valid_str() {
    let case = "element0,overlay,body0.png,0,0";
    let (p, result) = element(&chars(case), 0).unwrap();
    assert_eq!(remain(case, p), "");
    assert_eq!(result.id(), &0);
    assert_eq!(result.method(), &DrawMethod::Overlay);
    assert_eq!(result.filename(), &"body0.png".to_string());
    assert_eq!(result.x(), &0);
    assert_eq!(result.y(), &0);
}

#[test]
fn element_failed_when_invalid_str() {
    let case = "element,overlay,s.png,0";
    assert!(element(&chars(case), 0).is_none());
}

#[test]
fn animation_interval_success_when_valid_str() {
    let case = "2interval,never";
    let (p, result) = animation_interval(&chars(case), 0).unwrap();
    assert_eq!(remain(case, p), "");
    assert_eq!(result.id(), &2);
    assert_eq!(result.intervals(), &vec![AnimationInterval::Never]);

    let case = "animation10.interval,sometimes";
    let (p, result) = animation_interval(&chars(case), 0).unwrap();
    assert_eq!(remain(case, p), "");
    assert_eq!(result.id(), &10);
    assert_eq!(result.intervals(), &vec![AnimationInterval::Sometimes]);

    let case = "animation3.interval,periodic,5+talk,2+bind";
    let (p, result) = animation_interval(&chars(case), 0).unwrap();
    assert_eq!(remain(case, p), "");
    assert_eq!(
        result.intervals(),
        &vec![
            AnimationInterval::Periodic(5),
            AnimationInterval::Talk(2),
            AnimationInterval::Bind,
        ]
    );

    let case = "animation0.interval,random,4";
    let (_, result) = animation_interval(&chars(case), 0).unwrap();
    assert_eq!(result.intervals(), &vec![AnimationInterval::Random(4)]);

    let case = "animation0.interval,yen-e";
    let (_, result) = animation_interval(&chars(case), 0).unwrap();
    assert_eq!(result.intervals(), &vec![AnimationInterval::YenE]);
}

#[test]
fn animation_interval_failed_when_invalid_str() {
    assert!(animation_interval(&chars("animation0.interval,"), 0).is_none());
    assert!(animation_interval(&chars("interval,sometimes"), 0).is_none());
}

#[test]
fn animation_interval_dialects() {
    let case = "2interval,never";
    let (p, result) = animation_interval_v0(&chars(case), 0).unwrap();
    assert_eq!(remain(case, p), "");
    assert_eq!(result, SurfaceAnimationInterval::new(2, vec![AnimationInterval::Never]));
    assert!(animation_interval_v1(&chars(case), 0).is_none());

    let case = "animation2.interval,never";
    let (p, result) = animation_interval_v1(&chars(case), 0).unwrap();
    assert_eq!(remain(case, p), "");
    assert_eq!(result, SurfaceAnimationInterval::new(2, vec![AnimationInterval::Never]));
    assert!(animation_interval_v0(&chars(case), 0).is_none());

    let case = "animation2.interval,ne";
    assert!(animation_interval(&chars(case), 0).is_none());
}

#[test]
fn animation_interval_defines_success_when_valid_str() {
    let case = "bind+always";
    let (p, result) = animation_interval_defines(&chars(case), 0).unwrap();
    assert_eq!(remain(case, p), "");
    assert_eq!(result, vec![AnimationInterval::Bind, AnimationInterval::Always]);

    let case = "bind+random,10";
    let (p, result) = animation_interval_defines(&chars(case), 0).unwrap();
    assert_eq!(remain(case, p), "");
    assert_eq!(result, vec![AnimationInterval::Bind, AnimationInterval::Random(10)]);
}

#[test]
fn animation_pattern_dialects() {
    let case = "3pattern4,10,20,alternativestart,[1,2]";
    let (p, result) = animation_pattern_v0(&chars(case), 0).unwrap();
    assert_eq!(remain(case, p), "");
    assert_eq!(result.id(), &3);
    assert_eq!(result.pattern_id(), &4);
    assert_eq!(
        result.method(),
        &AnimationPatternDrawMethod::Animation(DrawMethodOnAnimation::Alternativestart(vec![1, 2]))
    );

    let case = "1pattern3,-1,70,overlay,0,0";
    let (p, result) = animation_pattern_v0(&chars(case), 0).unwrap();
    assert_eq!(remain(case, p), "");
    assert_eq!(result.id(), &1);
    assert_eq!(result.pattern_id(), &3);
    assert_eq!(
        result.method(),
        &AnimationPatternDrawMethod::Normal(
            DrawMethod::Overlay,
            AnimationPatternProperty::new(-1, 700, 0, 0)
        )
    );

    let case = "animation0.pattern0,alternativestart,(1,2)";
    assert!(animation_pattern_v0(&chars(case), 0).is_none());

    let case = "animation3.pattern4,alternativestart,(1,2)";
    let (p, result) = animation_pattern_v1(&chars(case), 0).unwrap();
    assert_eq!(remain(case, p), "");
    assert_eq!(result.id(), &3);
    assert_eq!(result.pattern_id(), &4);
    assert_eq!(
        result.method(),
        &AnimationPatternDrawMethod::Animation(DrawMethodOnAnimation::Alternativestart(vec![1, 2]))
    );

    let case = "0pattern0,0,0,alternativestart,[1,2]";
    assert!(animation_pattern_v1(&chars(case), 0).is_none());
}

#[test]
fn animation_pattern_property_v1_success_when_valid_str() {
    let case = ",-1,60,10,10\r\n";
    let (p, result) = animation_pattern_property_v1(&chars(case), 0).unwrap();
    assert_eq!(remain(case, p), "\r\n");
    assert_eq!(result.surface_id(), &-1);
    assert_eq!(result.weight(), &60);
    assert_eq!(result.x(), &10);
    assert_eq!(result.y(), &10);

    let case = ",-1,60,60";
    assert!(animation_pattern_property_v1(&chars(case), 0).is_none());
}

#[test]
fn animation_pattern_success_when_valid_str() {
    let case = "animation0.pattern1,overlay,-1,2,3,4";
    let (p, result) = animation_pattern(&chars(case), 0).unwrap();
    assert_eq!(remain(case, p), "");
    assert_eq!(result.id(), &0);
    assert_eq!(result.pattern_id(), &1);
    assert_eq!(
        result.method(),
        &AnimationPatternDrawMethod::Normal(
            DrawMethod::Overlay,
            AnimationPatternProperty::new(-1, 2, 3, 4)
        )
    );

    let case = "animation4.pattern2,start,8";
    let (_, result) = animation_pattern(&chars(case), 0).unwrap();
    assert_eq!(
        result.method(),
        &AnimationPatternDrawMethod::Animation(DrawMethodOnAnimation::Start(8))
    );

    let case = "1pattern3,-1,70,alternativestart,(0.1)";
    let (_, result) = animation_pattern(&chars(case), 0).unwrap();
    assert_eq!(
        result.method(),
        &AnimationPatternDrawMethod::Animation(DrawMethodOnAnimation::Alternativestart(vec![
            0, 1
        ]))
    );
}

#[test]
fn animation_pattern_failed_when_invalid_str() {
    let case = "0pattern0,0,0,alternativestart,";
    assert!(animation_pattern(&chars(case), 0).is_none());
}

#[test]
fn legacy_pattern_weight_is_normalized_to_tenths() {
    let case = "1pattern3,-1,70,overlay,0,0";
    let (_, legacy) = animation_pattern(&chars(case), 0).unwrap();
    let case = "animation1.pattern3,overlay,-1,700,0,0";
    let (_, current) = animation_pattern(&chars(case), 0).unwrap();
    let expected = AnimationPatternDrawMethod::Normal(
        DrawMethod::Overlay,
        AnimationPatternProperty::new(-1, 700, 0, 0),
    );
    assert_eq!(legacy.method(), &expected);
    assert_eq!(current.method(), &expected);
    assert_eq!(legacy.id(), current.id());
    assert_eq!(legacy.pattern_id(), current.pattern_id());
}

#[test]
fn animation_option_success_when_valid_str() {
    let case = "5option,exclusive";
    let (p, result) = animation_option(&chars(case), 0).unwrap();
    assert_eq!(remain(case, p), "");
    assert_eq!(
        result,
        SurfaceAnimationOption::new(5, vec![AnimationOptionKind::Exclusive(None)])
    );

    let case = "animation5.option,exclusive+background,(1,3,5)";
    let (p, result) = animation_option(&chars(case), 0).unwrap();
    assert_eq!(remain(case, p), "");
    assert_eq!(
        result,
        SurfaceAnimationOption::new(
            5,
            vec![
                AnimationOptionKind::Exclusive(Some(vec![1, 3, 5])),
                AnimationOptionKind::Background,
            ]
        )
    );
}

#[test]
fn animation_option_attaches_the_list_to_every_exclusive() {
    let case = "animation5.option,exclusive+shared-index+exclusive,(7,9)";
    let (_, result) = animation_option(&chars(case), 0).unwrap();
    assert_eq!(
        result.options(),
        &vec![
            AnimationOptionKind::Exclusive(Some(vec![7, 9])),
            AnimationOptionKind::SharedIndex,
            AnimationOptionKind::Exclusive(Some(vec![7, 9])),
        ]
    );
}

#[test]
fn animation_option_failed_when_invalid_str() {
    let case = "animation5.option,exclusiv";
    assert!(animation_option(&chars(case), 0).is_none());
}

#[test]
fn surface_offset_keys_parse() {
    let cases = vec![
        ("sakura.balloon.offsetx,10", SurfaceInner::SakuraBalloonOffsetX(10)),
        ("sakura.balloon.offsety,-100", SurfaceInner::SakuraBalloonOffsetY(-100)),
        ("kero.balloon.offsetx,-30", SurfaceInner::KeroBalloonOffsetX(-30)),
        ("kero.balloon.offsety,20", SurfaceInner::KeroBalloonOffsetY(20)),
        ("balloon.offsetx,1", SurfaceInner::BalloonOffsetX(1)),
        ("balloon.offsety,2", SurfaceInner::BalloonOffsetY(2)),
        ("point.centerx,3", SurfaceInner::PointCenterX(3)),
        ("point.centery,4", SurfaceInner::PointCenterY(4)),
        ("point.kinoko.centerx,5", SurfaceInner::PointKinokoCenterX(5)),
        ("point.kinoko.centery,6", SurfaceInner::PointKinokoCenterY(6)),
        ("point.basepos.x,7", SurfaceInner::PointBaseposX(7)),
        ("point.basepos.y,-8", SurfaceInner::PointBaseposY(-8)),
    ];
    for (case, expected) in cases {
        let (p, result) = surface_offset(&chars(case), 0).unwrap();
        assert_eq!(remain(case, p), "");
        assert_eq!(result, expected);
    }
    assert!(surface_offset(&chars("sakura.balloon.offsetx,"), 0).is_none());
}

#[test]
fn surface_name_success_when_valid_str() {
    let case = "surface0,1\r\n";
    let (p, result) = surface_name(&chars(case), 0).unwrap();
    assert_eq!(remain(case, p), "");
    assert_eq!(result, vec![SurfaceId::Unit(0), SurfaceId::Unit(1)]);

    let case = "surface0,surface1\r\n";
    let (p, result) = surface_name(&chars(case), 0).unwrap();
    assert_eq!(remain(case, p), "");
    assert_eq!(result, vec![SurfaceId::Unit(0), SurfaceId::Unit(1)]);

    let case = "surface1,3,4,6,12\r\n";
    let (p, result) = surface_name(&chars(case), 0).unwrap();
    assert_eq!(remain(case, p), "");
    assert_eq!(
        result,
        vec![
            SurfaceId::Unit(1),
            SurfaceId::Unit(3),
            SurfaceId::Unit(4),
            SurfaceId::Unit(6),
            SurfaceId::Unit(12),
        ]
    );

    let case = "surface1-12\r\n";
    let (p, result) = surface_name(&chars(case), 0).unwrap();
    assert_eq!(remain(case, p), "");
    assert_eq!(result, vec![SurfaceId::Range(1, 12)]);

    let case = "surface1-30,!15,!20-25\r\n";
    let (p, result) = surface_name(&chars(case), 0).unwrap();
    assert_eq!(remain(case, p), "");
    assert_eq!(
        result,
        vec![
            SurfaceId::Range(1, 30),
            SurfaceId::Not(Box::new(SurfaceId::Unit(15))),
            SurfaceId::Not(Box::new(SurfaceId::Range(20, 25))),
        ]
    );
}

#[test]
fn surface_name_failed_when_invalid_str() {
    let case = "surface0,";
    assert!(surface_name(&chars(case), 0).is_none());

    let case = "surface,1,surface3,surface4";
    assert!(surface_name(&chars(case), 0).is_none());
}

#[test]
fn surface_append_name_success_when_valid_str() {
    let case = "surface.append0\r\n";
    let (p, result) = surface_append_name(&chars(case), 0).unwrap();
    assert_eq!(remain(case, p), "");
    assert_eq!(result, vec![SurfaceId::Unit(0)]);
}

#[test]
fn surface_append_name_failed_when_invalid_str() {
    let case = "surface.append0";
    assert!(surface_append_name(&chars(case), 0).is_none());
}

#[test]
fn surface_block_success_when_valid_str() {
    let case = "surface1-3,!25-30\n{\ncollision0,188,25,252,63,Head\ncollision1,180,191,220,222,Bust\n}";
    let (p, result) = parse_block::<Surface>(&chars(case), 0).unwrap();
    assert_eq!(remain(case, p), "");
    assert_eq!(
        result,
        Surface::new(
            vec![
                SurfaceId::Range(1, 3),
                SurfaceId::Not(Box::new(SurfaceId::Range(25, 30)))
            ],
            vec![
                LineContainer::Body(SurfaceInner::Collision(SurfaceCollision::new(
                    0,
                    188,
                    25,
                    252,
                    63,
                    "Head".to_string()
                ))),
                LineContainer::Body(SurfaceInner::Collision(SurfaceCollision::new(
                    1,
                    180,
                    191,
                    220,
                    222,
                    "Bust".to_string()
                ))),
            ]
        )
    );

    let case = "surface1,surface3,surface4\n{\n}";
    let (p, result) = parse_block::<Surface>(&chars(case), 0).unwrap();
    assert_eq!(remain(case, p), "");
    assert_eq!(
        result,
        Surface::new(
            vec![SurfaceId::Unit(1), SurfaceId::Unit(3), SurfaceId::Unit(4)],
            vec![]
        )
    );

    let case = "surface10\n{\ncollision0,40,56,95,90,Head\n\nsakura.balloon.offsetx,80\nsakura.balloon.offsety,-100\nkero.balloon.offsetx,-30\nkero.balloon.offsety,20\n}";
    let (p, result) = parse_block::<Surface>(&chars(case), 0).unwrap();
    assert_eq!(remain(case, p), "");
    assert_eq!(result.ids(), &vec![SurfaceId::Unit(10)]);
}

#[test]
fn surface_block_failed_when_invalid_str() {
    let case = "surface1{}";
    assert!(parse_block::<Surface>(&chars(case), 0).is_none());
}

#[test]
fn surface_append_block_success_when_valid_str() {
    let case = "surface.append1-3,!25-30\n{\ncollision0,188,25,252,63,Head\ncollision1,180,191,220,222,Bust\n}";
    let (p, result) = parse_block::<SurfaceAppend>(&chars(case), 0).unwrap();
    assert_eq!(remain(case, p), "");
    assert_eq!(
        result,
        SurfaceAppend::new(
            vec![
                SurfaceId::Range(1, 3),
                SurfaceId::Not(Box::new(SurfaceId::Range(25, 30)))
            ],
            vec![
                LineContainer::Body(SurfaceInner::Collision(SurfaceCollision::new(
                    0,
                    188,
                    25,
                    252,
                    63,
                    "Head".to_string()
                ))),
                LineContainer::Body(SurfaceInner::Collision(SurfaceCollision::new(
                    1,
                    180,
                    191,
                    220,
                    222,
                    "Bust".to_string()
                ))),
            ]
        )
    );
}

#[test]
fn surface_append_block_failed_when_invalid_str() {
    let case = "\nsurface.append1,surface2\n{\n}\n";
    assert!(parse_block::<SurfaceAppend>(&chars(case), 0).is_none());
}
