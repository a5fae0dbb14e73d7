//! Content-safety checks: the labels and suggestions that the platform
//! answers with, and the arguments of a text check.
use vstd::prelude::*;
use vstd::string::StringExecFns;

mod msg_sec_check;

pub use msg_sec_check::{Args, ArgsBuilder, ArgsBuilderView, Scene};

verus! {

/// The kind of content that a check found.
#[derive(Debug, Clone, Copy, PartialEq, Eq, Structural)]
pub enum Label {
    Normal,
    Ad,
    Politics,
    Porn,
    Abuse,
    Illegal,
    Fraud,
    Vulgar,
    Copyright,
    Other,
}

/// The number that the platform uses for `label`.
pub open spec fn label_value(label: Label) -> int {
    match label {
        Label::Normal => 100,
        Label::Ad => 10001,
        Label::Politics => 20001,
        Label::Porn => 20002,
        Label::Abuse => 20003,
        Label::Illegal => 20006,
        Label::Fraud => 20008,
        Label::Vulgar => 20012,
        Label::Copyright => 20013,
        Label::Other => 21000,
    }
}

/// The name of `label` in the platform's own words.
pub open spec fn label_name(label: Label) -> Seq<char> {
    match label {
        Label::Normal => "正常"@,
        Label::Ad => "广告"@,
        Label::Politics => "时政"@,
        Label::Porn => "色情"@,
        Label::Abuse => "辱骂"@,
        Label::Illegal => "违法犯罪"@,
        Label::Fraud => "欺诈"@,
        Label::Vulgar => "低俗"@,
        Label::Copyright => "版权"@,
        Label::Other => "其他"@,
    }
}

impl Label {
    /// The label that the platform means by `value`, if any.
    pub fn from_value(value: i32) -> (r: Option<Self>)
        ensures
            r matches Some(l) ==> label_value(l) == value,
            r is None ==> forall|l: Label| label_value(l) != value,
    {
        match value {
            100 => Some(Label::Normal),
            10001 => Some(Label::Ad),
            20001 => Some(Label::Politics),
            20002 => Some(Label::Porn),
            20003 => Some(Label::Abuse),
            20006 => Some(Label::Illegal),
            20008 => Some(Label::Fraud),
            20012 => Some(Label::Vulgar),
            20013 => Some(Label::Copyright),
            21000 => Some(Label::Other),
            _ => {
                proof {
                    assert forall|l: Label| label_value(l) != value by {
                        match l {
                            _ => {},
                        }
                    }
                }
                None
            },
        }
    }

    /// The number that the platform uses for this label.
    pub fn value(&self) -> (r: i32)
        ensures
            r == label_value(*self),
    {
        match self {
            Label::Normal => 100,
            Label::Ad => 10001,
            Label::Politics => 20001,
            Label::Porn => 20002,
            Label::Abuse => 20003,
            Label::Illegal => 20006,
            Label::Fraud => 20008,
            Label::Vulgar => 20012,
            Label::Copyright => 20013,
            Label::Other => 21000,
        }
    }

    /// The name of the label in the platform's own words.
    pub fn to_string(&self) -> (r: String)
        ensures
            r@ == label_name(*self),
    {
        match self {
            Label::Normal => String::from_str("正常"),
            Label::Ad => String::from_str("广告"),
            Label::Politics => String::from_str("时政"),
            Label::Porn => String::from_str("色情"),
            Label::Abuse => String::from_str("辱骂"),
            Label::Illegal => String::from_str("违法犯罪"),
            Label::Fraud => String::from_str("欺诈"),
            Label::Vulgar => String::from_str("低俗"),
            Label::Copyright => String::from_str("版权"),
            Label::Other => String::from_str("其他"),
        }
    }

    /// Whether the content is normal.
    pub fn is_normal(&self) -> (r: bool)
        ensures
            r == (*self == Label::Normal),
    {
        matches!(self, Label::Normal)
    }

    /// Whether the content violates a rule.
    pub fn is_violation(&self) -> (r: bool)
        ensures
            r == (*self != Label::Normal),
    {
        !self.is_normal()
    }
}

/// What a check advises to do with the content.
#[derive(Debug, Clone, Copy, PartialEq, Eq, Structural)]
pub enum Suggest {
    Risky,
    Pass,
    Review,
}

/// The suggestion that a lowercase name stands for: `risky`, `pass`, and
/// `review` for that name and for every other.
pub open spec fn suggest_named(name: Seq<char>) -> Suggest {
    if name == "risky"@ {
        Suggest::Risky
    } else if name == "pass"@ {
        Suggest::Pass
    } else {
        Suggest::Review
    }
}

/// The lowercase form of `s`.
pub uninterp spec fn lower_of(s: Seq<char>) -> Seq<char>;

/// Relies on `str::to_lowercase`: the lowercase form of `s`, which depends
/// on its characters alone.
#[verifier::external_body]
fn lowercase(s: &str) -> (r: String)
    ensures
        r@ == lower_of(s@),
{
    s.to_lowercase()
}

impl Suggest {
    pub fn is_pass(&self) -> (r: bool)
        ensures
            r == (*self == Suggest::Pass),
    {
        matches!(self, Suggest::Pass)
    }

    pub fn is_risky(&self) -> (r: bool)
        ensures
            r == (*self == Suggest::Risky),
    {
        matches!(self, Suggest::Risky)
    }

    pub fn needs_review(&self) -> (r: bool)
        ensures
            r == (*self == Suggest::Review),
    {
        matches!(self, Suggest::Review)
    }

    /// How urgent the suggestion is, the most urgent first: risky 1, review
    /// 2, pass 3.
    pub fn priority(&self) -> (r: u8)
        ensures
            r == match *self {
                Suggest::Risky => 1u8,
                Suggest::Review => 2u8,
                Suggest::Pass => 3u8,
            },
    {
        match self {
            Suggest::Risky => 1,
            Suggest::Review => 2,
            Suggest::Pass => 3,
        }
    }

    /// The suggestion named by an already lowercase `name`.
    pub fn from_lowercase(name: &str) -> (r: Suggest)
        ensures
            r == suggest_named(name@),
    {
        let name = String::from_str(name);
        if name == String::from_str("risky") {
            Suggest::Risky
        } else if name == String::from_str("pass") {
            Suggest::Pass
        } else {
            Suggest::Review
        }
    }

    /// The name of the suggestion, in lowercase.
    pub fn to_string(&self) -> (r: String)
        ensures
            r@ == match *self {
                Suggest::Risky => "risky"@,
                Suggest::Pass => "pass"@,
                Suggest::Review => "review"@,
            },
    {
        match self {
            Suggest::Risky => String::from_str("risky"),
            Suggest::Pass => String::from_str("pass"),
            Suggest::Review => String::from_str("review"),
        }
    }
}

impl From<&str> for Suggest {
    /// The suggestion named by `s` in any case; an unknown name asks for
    /// review.
    fn from(s: &str) -> (r: Suggest) {
        let lower = lowercase(s);
        Suggest::from_lowercase(lower.as_str())
    }
}

impl vstd::std_specs::convert::FromSpecImpl<&str> for Suggest {
    open spec fn obeys_from_spec() -> bool {
        true
    }

    open spec fn from_spec(s: &str) -> Suggest {
        suggest_named(lower_of(s@))
    }
}

/// The overall verdict of a check.
#[derive(Debug, Clone, Copy, PartialEq, Eq, Structural)]
pub struct ComprehensiveResult {
    pub suggest: Suggest,
    pub label: Label,
}

} // verus!
