use wechat_minapp::minapp_security::{Args, ComprehensiveResult, Label, Scene, Suggest};

#[test]
fn test_suggest_enum() {
    assert_eq!(Suggest::Risky.to_string(), "risky");
    assert_eq!(Suggest::Pass.to_string(), "pass");
    assert_eq!(Suggest::Review.to_string(), "review");

    assert_eq!(Suggest::from("risky"), Suggest::Risky);
    assert_eq!(Suggest::from("PASS"), Suggest::Pass);
    assert_eq!(Suggest::from("ReViEw"), Suggest::Review);
    assert_eq!(Suggest::from("invalid"), Suggest::Review);

    assert!(Suggest::Pass.is_pass());
    assert!(Suggest::Risky.is_risky());
    assert!(Suggest::Review.needs_review());

    assert_eq!(Suggest::Risky.priority(), 1);
    assert_eq!(Suggest::Review.priority(), 2);
    assert_eq!(Suggest::Pass.priority(), 3);
}

#[test]
fn test_args_builder() {
    let args = Args::builder()
        .content("测试内容")
        .scene(Scene::Comment)
        .openid("test_openid")
        .build()
        .unwrap();

    assert_eq!(args.content, "测试内容");
    assert_eq!(args.version, 2);
    assert_eq!(args.scene, Scene::Comment);
    assert_eq!(args.openid, "test_openid");
}

#[test]
fn test_args_builder_validation() {
    let result = Args::builder().scene(Scene::Comment).openid("test_openid").build();
    assert!(result.is_err());

    let long_content = "a".repeat(2501);
    let result = Args::builder()
        .content(&long_content)
        .scene(Scene::Comment)
        .openid("openid")
        .build();
    assert!(result.is_err());

    let result = Args::builder()
        .content("内容")
        .scene(Scene::Comment)
        .openid("openid")
        .signature("签名")
        .build();
    assert!(result.is_err());
}

#[test]
fn test_scene_enum() {
    assert_eq!(Scene::from_value(1), Some(Scene::Profile));
    assert_eq!(Scene::Profile.description(), "资料");
    assert_eq!(Scene::Profile.value(), 1);
}

#[test]
fn builder_errors_name_the_problem() {
    let missing_content = Args::builder().scene(Scene::Comment).openid("o").build().unwrap_err();
    assert_eq!(missing_content.to_string(), "invalid parameter: content 是必填参数");
    let missing_scene = Args::builder().content("c").openid("o").build().unwrap_err();
    assert_eq!(missing_scene.to_string(), "invalid parameter: scene 是必填参数");
    let missing_openid = Args::builder().content("c").scene(Scene::Forum).build().unwrap_err();
    assert_eq!(missing_openid.to_string(), "invalid parameter: openid 是必填参数");
    let signature = Args::builder()
        .content("c")
        .scene(Scene::Forum)
        .openid("o")
        .signature("s")
        .build()
        .unwrap_err();
    assert_eq!(
        signature.to_string(),
        "invalid parameter: signature 仅在资料场景(scene=1)下有效"
    );
}

#[test]
fn builder_keeps_optional_fields_and_version() {
    let args = Args::builder()
        .content("内容")
        .scene(Scene::Profile)
        .openid("o")
        .version(3)
        .title("标题")
        .nickname("昵称")
        .signature("签名")
        .build()
        .unwrap();
    assert_eq!(args.version, 3);
    assert_eq!(args.title.as_deref(), Some("标题"));
    assert_eq!(args.nickname.as_deref(), Some("昵称"));
    assert_eq!(args.signature.as_deref(), Some("签名"));
    assert!(args.is_profile_scene());
}

#[test]
fn content_length_counts_bytes() {
    // 834 characters of three bytes each: 2502 bytes, over the limit.
    let wide = "字".repeat(834);
    let args = Args::new(&wide, Scene::Comment, "o");
    assert_eq!(args.content_length(), 2502);
    assert!(args.validate().is_err());
    let exact = "a".repeat(2500);
    let args = Args::new(&exact, Scene::Comment, "o");
    assert_eq!(args.content_length(), 2500);
    assert!(args.validate().is_ok());
    let with_title = Args::builder()
        .content(&exact)
        .scene(Scene::SocialLog)
        .openid("o")
        .build();
    assert!(with_title.is_ok());
}

#[test]
fn args_new_uses_version_two() {
    let args = Args::new("待检测的文本内容", Scene::Comment, "user_openid");
    assert_eq!(args.version, 2);
    assert_eq!(args.content_length(), 24);
    assert!(!args.is_profile_scene());
    assert!(args.title.is_none() && args.nickname.is_none() && args.signature.is_none());
}

#[test]
fn scene_values_round_trip() {
    for v in 1..=4u32 {
        assert_eq!(Scene::from_value(v).unwrap().value(), v);
    }
    assert_eq!(Scene::from_value(0), None);
    assert_eq!(Scene::from_value(5), None);
    assert_eq!(Scene::SocialLog.description(), "社交日志");
    assert_eq!(Scene::Forum.description(), "论坛");
    assert_eq!(Scene::Comment.description(), "评论");
}

#[test]
fn label_values() {
    assert_eq!(Label::from_value(100), Some(Label::Normal));
    assert_eq!(Label::from_value(20001), Some(Label::Politics));
    assert_eq!(Label::from_value(21000), Some(Label::Other));
    assert_eq!(Label::from_value(0), None);
    assert_eq!(Label::Fraud.value(), 20008);
    assert!(Label::Normal.is_normal());
    assert!(!Label::Normal.is_violation());
    assert!(Label::Ad.is_violation());
}

#[test]
fn comprehensive_result_fields() {
    let r = ComprehensiveResult { suggest: Suggest::Risky, label: Label::Abuse };
    assert!(r.suggest.is_risky());
    assert_eq!(r.label.value(), 20003);
}

#[test]
fn label_names() {
    assert_eq!(Label::Normal.to_string(), "正常");
    assert_eq!(Label::Illegal.to_string(), "违法犯罪");
    assert_eq!(Label::Other.to_string(), "其他");
}
