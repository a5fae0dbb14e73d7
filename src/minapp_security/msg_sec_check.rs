//! The arguments of a text content-safety check and the rules they obey.
use vstd::prelude::*;
use vstd::string::StringExecFns;
use crate::error::Error;
use crate::strings::{byte_len, opt_view, utf8_len};

verus! {

/// The longest content that a check accepts, in bytes.
pub const MAX_CONTENT_LEN: usize = 2500;

/// Where the checked text comes from; each scene is checked by its own
/// policy.
#[derive(Debug, Clone, Copy, PartialEq, Eq, Structural)]
pub enum Scene {
    Profile,
    Comment,
    Forum,
    SocialLog,
}

/// The number that the platform uses for `scene`.
pub open spec fn scene_value(scene: Scene) -> int {
    match scene {
        Scene::Profile => 1,
        Scene::Comment => 2,
        Scene::Forum => 3,
        Scene::SocialLog => 4,
    }
}

impl Scene {
    /// The scene that the platform means by `value`, if any.
    pub fn from_value(value: u32) -> (r: Option<Self>)
        ensures
            r matches Some(s) ==> scene_value(s) == value,
            r is None <==> !(1 <= value <= 4),
    {
        match value {
            1 => Some(Scene::Profile),
            2 => Some(Scene::Comment),
            3 => Some(Scene::Forum),
            4 => Some(Scene::SocialLog),
            _ => None,
        }
    }

    /// The number that the platform uses for this scene.
    pub fn value(&self) -> (r: u32)
        ensures
            r == scene_value(*self),
    {
        match self {
            Scene::Profile => 1,
            Scene::Comment => 2,
            Scene::Forum => 3,
            Scene::SocialLog => 4,
        }
    }

    /// A short description of the scene.
    pub fn description(&self) -> (r: &'static str)
        ensures
            r@ == match *self {
                Scene::Profile => "资料"@,
                Scene::Comment => "评论"@,
                Scene::Forum => "论坛"@,
                Scene::SocialLog => "社交日志"@,
            },
    {
        match self {
            Scene::Profile => "资料",
            Scene::Comment => "评论",
            Scene::Forum => "论坛",
            Scene::SocialLog => "社交日志",
        }
    }
}

/// The arguments of a text check.
#[derive(Debug, Clone)]
pub struct Args {
    /// The text to check, UTF-8, at most 2500 bytes.
    pub content: String,
    /// The version of the interface; 2 for the current one.
    pub version: u32,
    pub scene: Scene,
    /// The user, who must have used the mini program in the last two hours.
    pub openid: String,
    pub title: Option<String>,
    pub nickname: Option<String>,
    /// A signature, only allowed in the profile scene.
    pub signature: Option<String>,
}

/// Why arguments with this content, scene and signature are refused, if
/// they are.
pub open spec fn args_problem(content: Seq<char>, scene: Scene, signature: Option<Seq<char>>) -> Option<
    Seq<char>,
> {
    if utf8_len(content) > MAX_CONTENT_LEN {
        Some("content 长度不能超过2500字"@)
    } else if signature is Some && scene != Scene::Profile {
        Some("signature 仅在资料场景(scene=1)下有效"@)
    } else {
        None
    }
}

/// The result of a check of arguments: `Ok` when there is no problem, else
/// an invalid-parameter error that names it.
pub open spec fn rejects_with(r: Result<(), Error>, problem: Option<Seq<char>>) -> bool {
    match problem {
        None => r is Ok,
        Some(m) => r matches Err(Error::InvalidParameter(msg)) && msg@ == m,
    }
}

impl Args {
    pub fn builder() -> (r: ArgsBuilder)
        ensures
            r@ == ArgsBuilderView::empty(),
    {
        ArgsBuilder::new()
    }

    /// Arguments of the current version, with no title, nickname or
    /// signature.
    pub fn new(content: &str, scene: Scene, openid: &str) -> (r: Self)
        ensures
            r.content@ == content@,
            r.version == 2,
            r.scene == scene,
            r.openid@ == openid@,
            r.title is None,
            r.nickname is None,
            r.signature is None,
    {
        Args {
            content: String::from_str(content),
            version: 2,
            scene,
            openid: String::from_str(openid),
            title: None,
            nickname: None,
            signature: None,
        }
    }

    pub fn is_profile_scene(&self) -> (r: bool)
        ensures
            r == (self.scene == Scene::Profile),
    {
        self.scene == Scene::Profile
    }

    /// The length of the content in bytes.
    pub fn content_length(&self) -> (r: usize)
        ensures
            r == utf8_len(self.content@),
    {
        byte_len(&self.content)
    }

    /// Checks the content length and that a signature only comes with the
    /// profile scene.
    pub fn validate(&self) -> (r: Result<(), Error>)
        ensures
            rejects_with(r, args_problem(self.content@, self.scene, opt_view(&self.signature))),
    {
        if byte_len(&self.content) > MAX_CONTENT_LEN {
            return Err(Error::InvalidParameter(String::from_str("content 长度不能超过2500字")));
        }
        if self.signature.is_some() && !self.is_profile_scene() {
            return Err(
                Error::InvalidParameter(String::from_str("signature 仅在资料场景(scene=1)下有效")),
            );
        }
        Ok(())
    }
}

/// Collects the arguments of a check one by one.
#[derive(Debug)]
pub struct ArgsBuilder {
    content: Option<String>,
    version: Option<u32>,
    scene: Option<Scene>,
    openid: Option<String>,
    title: Option<String>,
    nickname: Option<String>,
    signature: Option<String>,
}

pub struct ArgsBuilderView {
    pub content: Option<Seq<char>>,
    pub version: Option<u32>,
    pub scene: Option<Scene>,
    pub openid: Option<Seq<char>>,
    pub title: Option<Seq<char>>,
    pub nickname: Option<Seq<char>>,
    pub signature: Option<Seq<char>>,
}

impl ArgsBuilderView {
    pub open spec fn empty() -> ArgsBuilderView {
        ArgsBuilderView {
            content: None,
            version: None,
            scene: None,
            openid: None,
            title: None,
            nickname: None,
            signature: None,
        }
    }
}

impl View for ArgsBuilder {
    type V = ArgsBuilderView;

    closed spec fn view(&self) -> ArgsBuilderView {
        ArgsBuilderView {
            content: opt_view(&self.content),
            version: self.version,
            scene: self.scene,
            openid: opt_view(&self.openid),
            title: opt_view(&self.title),
            nickname: opt_view(&self.nickname),
            signature: opt_view(&self.signature),
        }
    }
}

/// The message of the error for a missing required argument.
pub open spec fn missing_message(v: ArgsBuilderView) -> Option<Seq<char>> {
    if v.content is None {
        Some("content 是必填参数"@)
    } else if v.scene is None {
        Some("scene 是必填参数"@)
    } else if v.openid is None {
        Some("openid 是必填参数"@)
    } else {
        None
    }
}

/// Why collected arguments cannot be built, if they cannot: a missing
/// required argument, else what [`Args::validate`] would refuse.
pub open spec fn build_problem(v: ArgsBuilderView) -> Option<Seq<char>> {
    if missing_message(v) is Some {
        missing_message(v)
    } else {
        args_problem(v.content->0, v.scene->0, v.signature)
    }
}

impl Default for ArgsBuilder {
    fn default() -> (r: Self)
        ensures
            r@ == ArgsBuilderView::empty(),
    {
        ArgsBuilder {
            content: None,
            version: None,
            scene: None,
            openid: None,
            title: None,
            nickname: None,
            signature: None,
        }
    }
}

impl ArgsBuilder {
    pub fn new() -> (r: Self)
        ensures
            r@ == ArgsBuilderView::empty(),
    {
        Self::default()
    }

    pub fn content(self, content: &str) -> (r: Self)
        ensures
            r@ == (ArgsBuilderView { content: Some(content@), ..self@ }),
    {
        ArgsBuilder { content: Some(String::from_str(content)), ..self }
    }

    pub fn version(self, version: u32) -> (r: Self)
        ensures
            r@ == (ArgsBuilderView { version: Some(version), ..self@ }),
    {
        ArgsBuilder { version: Some(version), ..self }
    }

    pub fn scene(self, scene: Scene) -> (r: Self)
        ensures
            r@ == (ArgsBuilderView { scene: Some(scene), ..self@ }),
    {
        ArgsBuilder { scene: Some(scene), ..self }
    }

    pub fn openid(self, openid: &str) -> (r: Self)
        ensures
            r@ == (ArgsBuilderView { openid: Some(openid@), ..self@ }),
    {
        ArgsBuilder { openid: Some(String::from_str(openid)), ..self }
    }

    pub fn title(self, title: &str) -> (r: Self)
        ensures
            r@ == (ArgsBuilderView { title: Some(title@), ..self@ }),
    {
        ArgsBuilder { title: Some(String::from_str(title)), ..self }
    }

    pub fn nickname(self, nickname: &str) -> (r: Self)
        ensures
            r@ == (ArgsBuilderView { nickname: Some(nickname@), ..self@ }),
    {
        ArgsBuilder { nickname: Some(String::from_str(nickname)), ..self }
    }

    pub fn signature(self, signature: &str) -> (r: Self)
        ensures
            r@ == (ArgsBuilderView { signature: Some(signature@), ..self@ }),
    {
        ArgsBuilder { signature: Some(String::from_str(signature)), ..self }
    }

    /// The arguments collected, with version 2 where none was given.
    ///
    /// Fails with an invalid-parameter error when the content, the scene or
    /// the openid is missing (checked in that order), and then as
    /// [`Args::validate`] does.
    pub fn build(self) -> (r: Result<Args, Error>)
        ensures
            build_problem(self@) matches Some(m) ==> (r matches Err(Error::InvalidParameter(msg))
                && msg@ == m),
            r is Ok <==> build_problem(self@) is None,
            r matches Ok(a) ==> a.content@ == self@.content->0 && a.version == (match self@.version {
                Some(v) => v,
                None => 2u32,
            }) && a.scene == self@.scene->0 && a.openid@ == self@.openid->0 && opt_view(&a.title)
                == self@.title && opt_view(&a.nickname) == self@.nickname && opt_view(&a.signature)
                == self@.signature,
    {
        let content = match self.content {
            Some(c) => c,
            None => {
                return Err(Error::InvalidParameter(String::from_str("content 是必填参数")));
            },
        };
        let version = match self.version {
            Some(v) => v,
            None => 2,
        };
        let scene = match self.scene {
            Some(s) => s,
            None => {
                return Err(Error::InvalidParameter(String::from_str("scene 是必填参数")));
            },
        };
        let openid = match self.openid {
            Some(o) => o,
            None => {
                return Err(Error::InvalidParameter(String::from_str("openid 是必填参数")));
            },
        };
        let args = Args {
            content,
            version,
            scene,
            openid,
            title: self.title,
            nickname: self.nickname,
            signature: self.signature,
        };
        match args.validate() {
            Ok(()) => Ok(args),
            Err(e) => Err(e),
        }
    }
}

} // verus!
