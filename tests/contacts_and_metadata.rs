use catalog::contact::mail_address::MailAddress;
use catalog::contact::phone_number::PhoneNumber;
use catalog::contact::website_url::WebsiteUrl;
use catalog::contact::ContactInfo;
use catalog::metadata::Metadata;
use catalog::socials::{Handler, Socials};
use chrono::{DateTime, Utc};

#[test]
fn it_should_create_mail_addresses() {
    let mail_address = MailAddress::new("mail@mail.com");
    assert_eq!("mail@mail.com", mail_address.to_string());
}

#[test]
fn it_should_create_contact_info() {
    let email = MailAddress::new("mail@mail.com");
    let website_url = WebsiteUrl::try_from("http://www.website.com").unwrap();
    let phone = PhoneNumber::new("+15551234");
    let contact_info = ContactInfo::new(
        Some(email.clone()),
        Some(website_url.clone()),
        Some(phone.clone()),
    );

    assert_eq!(Some(&email), contact_info.email());
    assert_eq!(Some(&phone), contact_info.phone());
    assert_eq!(Some(&website_url), contact_info.website_url());
}

#[test]
fn it_should_create_phone_numbers() {
    let phone_number = PhoneNumber::new("555-123456");
    assert_eq!("555-123456", phone_number.to_string());
}

#[test]
fn it_should_convert_str_to_website_urls() {
    let result: Result<WebsiteUrl, ()> = WebsiteUrl::try_from("http://www.website.com");
    assert!(result.is_ok());
    assert_eq!("http://www.website.com/", result.unwrap().to_string());
}

#[test]
fn invalid_website_urls_are_rejected() {
    assert!(WebsiteUrl::try_from("not a url").is_err());
    assert!(WebsiteUrl::try_from("").is_err());
}

#[test]
fn it_should_create_metadata() {
    let now: DateTime<Utc> = Utc::now();
    let metadata = Metadata::created_at(now.timestamp_millis());
    assert_eq!(1, metadata.version());
    assert_eq!(now.timestamp_millis(), metadata.created());
    assert_eq!(None, metadata.last_modified());
}

#[test]
fn it_should_update_metadata() {
    let now: DateTime<Utc> = Utc::now();
    let metadata = Metadata::created_at(now.timestamp_millis()).updated_at(now.timestamp_millis());
    assert_eq!(2, metadata.version());
    assert_eq!(now.timestamp_millis(), metadata.created());
    assert_eq!(Some(now.timestamp_millis()), metadata.last_modified());
}

#[test]
fn default_metadata_is_a_first_version_created_now() {
    let before = Utc::now().timestamp_millis();
    let metadata = Metadata::default();
    let after = Utc::now().timestamp_millis();
    assert_eq!(1, metadata.version());
    assert!(before <= metadata.created() && metadata.created() <= after);
    assert_eq!(None, metadata.last_modified());
}

#[test]
fn it_should_create_socials_value() {
    let social = Socials::new(
        Handler::try_from("facebook_user").ok(),
        Handler::try_from("instagram_user").ok(),
        Handler::try_from("linkedin_user").ok(),
        Handler::try_from("twitter_user").ok(),
        Handler::try_from("youtube_user").ok(),
    );

    assert_eq!("facebook_user", social.facebook().unwrap().value());
    assert_eq!("instagram_user", social.instagram().unwrap().value());
    assert_eq!("linkedin_user", social.linkedin().unwrap().value());
    assert_eq!("twitter_user", social.twitter().unwrap().value());
    assert_eq!("youtube_user", social.youtube().unwrap().value());
}

#[test]
fn empty_handlers_are_rejected() {
    assert!(Handler::try_from("").is_err());
    assert!(Socials::default().facebook().is_none());
}
