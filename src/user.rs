//! A user's profile and phone number, as decrypted or fetched, each carrying
//! the watermark that names the app it was issued to.
use vstd::prelude::*;

verus! {

/// The app a payload was issued to and when.
#[derive(Debug, Clone)]
pub struct Watermark {
    app_id: String,
    timestamp: u64,
}

/// The watermark fields, as they are read from a payload.
#[derive(Debug, Clone)]
pub struct WatermarkBuilder {
    pub app_id: String,
    pub timestamp: u64,
}

impl WatermarkBuilder {
    pub fn build(self) -> (r: Watermark)
        ensures
            r.app_id_view() == self.app_id@,
            r.timestamp_view() == self.timestamp,
    {
        Watermark { app_id: self.app_id, timestamp: self.timestamp }
    }
}

impl Watermark {
    pub closed spec fn app_id_view(&self) -> Seq<char> {
        self.app_id@
    }

    pub closed spec fn timestamp_view(&self) -> u64 {
        self.timestamp
    }
}

/// A user's public profile. The gender is 0 when unknown, 1 for male and 2
/// for female.
#[derive(Debug, Clone)]
pub struct User {
    nickname: String,
    gender: u8,
    country: String,
    province: String,
    city: String,
    avatar: String,
    watermark: Watermark,
}

pub struct UserView {
    pub nickname: Seq<char>,
    pub gender: u8,
    pub country: Seq<char>,
    pub province: Seq<char>,
    pub city: Seq<char>,
    pub avatar: Seq<char>,
    pub app_id: Seq<char>,
    pub timestamp: u64,
}

impl View for User {
    type V = UserView;

    closed spec fn view(&self) -> UserView {
        UserView {
            nickname: self.nickname@,
            gender: self.gender,
            country: self.country@,
            province: self.province@,
            city: self.city@,
            avatar: self.avatar@,
            app_id: self.watermark.app_id@,
            timestamp: self.watermark.timestamp,
        }
    }
}

impl User {
    pub fn nickname(&self) -> (r: &str)
        ensures
            r@ == self@.nickname,
    {
        self.nickname.as_str()
    }

    pub fn gender(&self) -> (r: u8)
        ensures
            r == self@.gender,
    {
        self.gender
    }

    pub fn country(&self) -> (r: &str)
        ensures
            r@ == self@.country,
    {
        self.country.as_str()
    }

    pub fn province(&self) -> (r: &str)
        ensures
            r@ == self@.province,
    {
        self.province.as_str()
    }

    pub fn city(&self) -> (r: &str)
        ensures
            r@ == self@.city,
    {
        self.city.as_str()
    }

    pub fn avatar(&self) -> (r: &str)
        ensures
            r@ == self@.avatar,
    {
        self.avatar.as_str()
    }

    /// The app that the profile was issued to.
    pub fn app_id(&self) -> (r: &str)
        ensures
            r@ == self@.app_id,
    {
        self.watermark.app_id.as_str()
    }

    /// When the profile was issued, in seconds since the Unix epoch.
    pub fn timestamp(&self) -> (r: u64)
        ensures
            r == self@.timestamp,
    {
        self.watermark.timestamp
    }
}

/// The profile fields, as they are read from a decrypted payload.
#[derive(Debug)]
pub struct UserBuilder {
    pub nickname: String,
    pub gender: u8,
    pub country: String,
    pub province: String,
    pub city: String,
    pub avatar: String,
    pub watermark: WatermarkBuilder,
}

impl UserBuilder {
    pub fn build(self) -> (r: User)
        ensures
            r@ == (UserView {
                nickname: self.nickname@,
                gender: self.gender,
                country: self.country@,
                province: self.province@,
                city: self.city@,
                avatar: self.avatar@,
                app_id: self.watermark.app_id@,
                timestamp: self.watermark.timestamp,
            }),
    {
        User {
            nickname: self.nickname,
            gender: self.gender,
            country: self.country,
            province: self.province,
            city: self.city,
            avatar: self.avatar,
            watermark: self.watermark.build(),
        }
    }
}

/// A user's phone number.
#[derive(Debug, Clone)]
pub struct Contact {
    phone_number: String,
    pure_phone_number: String,
    country_code: String,
    watermark: Watermark,
}

pub struct ContactView {
    pub phone_number: Seq<char>,
    pub pure_phone_number: Seq<char>,
    pub country_code: Seq<char>,
    pub app_id: Seq<char>,
    pub timestamp: u64,
}

impl View for Contact {
    type V = ContactView;

    closed spec fn view(&self) -> ContactView {
        ContactView {
            phone_number: self.phone_number@,
            pure_phone_number: self.pure_phone_number@,
            country_code: self.country_code@,
            app_id: self.watermark.app_id@,
            timestamp: self.watermark.timestamp,
        }
    }
}

impl Contact {
    /// The number with its country code, as the user entered it.
    pub fn phone_number(&self) -> (r: &str)
        ensures
            r@ == self@.phone_number,
    {
        self.phone_number.as_str()
    }

    /// The number without country code.
    pub fn pure_phone_number(&self) -> (r: &str)
        ensures
            r@ == self@.pure_phone_number,
    {
        self.pure_phone_number.as_str()
    }

    pub fn country_code(&self) -> (r: &str)
        ensures
            r@ == self@.country_code,
    {
        self.country_code.as_str()
    }

    /// The app that the number was issued to.
    pub fn app_id(&self) -> (r: &str)
        ensures
            r@ == self@.app_id,
    {
        self.watermark.app_id.as_str()
    }

    /// When the number was issued, in seconds since the Unix epoch.
    pub fn timestamp(&self) -> (r: u64)
        ensures
            r == self@.timestamp,
    {
        self.watermark.timestamp
    }
}

/// The phone fields of an answer, as they are read from it.
#[derive(Debug, Clone)]
pub struct PhoneInner {
    pub phone_number: String,
    pub pure_phone_number: String,
    pub country_code: String,
    pub watermark: WatermarkBuilder,
}

/// A phone-number answer, as it is read.
#[derive(Debug, Clone)]
pub struct ContactBuilder {
    pub inner: PhoneInner,
}

impl ContactBuilder {
    pub fn build(self) -> (r: Contact)
        ensures
            r@ == (ContactView {
                phone_number: self.inner.phone_number@,
                pure_phone_number: self.inner.pure_phone_number@,
                country_code: self.inner.country_code@,
                app_id: self.inner.watermark.app_id@,
                timestamp: self.inner.watermark.timestamp,
            }),
    {
        Contact {
            phone_number: self.inner.phone_number,
            pure_phone_number: self.inner.pure_phone_number,
            country_code: self.inner.country_code,
            watermark: self.inner.watermark.build(),
        }
    }
}

} // verus!
