use user_records::profile::Profile;
use user_records::user::User;
use user_records::decimal::decimal_string;

#[test]
fn summary_without_profile() {
    let user = User::new("Ana", 41);
    assert_eq!(user.summary(), "Ana (41 years old)");
}

#[test]
fn summary_with_profile() {
    let user = User::new("Ana", 41).with_profile(Profile::new("gardener"));
    assert_eq!(user.summary(), "Ana (41) - gardener");
}

#[test]
fn second_profile_replaces_first() {
    let user = User::new("Ana", 41)
        .with_profile(Profile::new("first bio"))
        .with_profile(Profile::new("second bio"));
    assert_eq!(user.summary(), "Ana (41) - second bio");
}

#[test]
fn age_boundaries_round_trip() {
    assert_eq!(User::new("Kim", 0).summary(), "Kim (0 years old)");
    assert_eq!(User::new("Kim", 255).summary(), "Kim (255 years old)");
    let with_profile = User::new("Kim", 255).with_profile(Profile::new("oldest"));
    assert_eq!(with_profile.summary(), "Kim (255) - oldest");
}

#[test]
fn empty_strings_appear_verbatim() {
    assert_eq!(User::new("", 3).summary(), " (3 years old)");
    let user = User::new("", 3).with_profile(Profile::new(""));
    assert_eq!(user.summary(), " (3) - ");
}

#[test]
fn end_to_end_with_profile() {
    let user = User::new("Taylor", 29).with_profile(Profile::new("Rustacean and workshop fan"));
    assert_eq!(user.summary(), "Taylor (29) - Rustacean and workshop fan");
}

#[test]
fn end_to_end_without_profile() {
    let user = User::new("Taylor", 29);
    assert_eq!(user.summary(), "Taylor (29 years old)");
}

#[test]
fn profile_stores_bio_verbatim() {
    assert_eq!(Profile::new("hiker").bio(), "hiker");
    assert_eq!(Profile::new("").bio(), "");
}

#[test]
fn decimal_renderings() {
    assert_eq!(decimal_string(0), "0");
    assert_eq!(decimal_string(7), "7");
    assert_eq!(decimal_string(10), "10");
    assert_eq!(decimal_string(99), "99");
    assert_eq!(decimal_string(100), "100");
    assert_eq!(decimal_string(201), "201");
    assert_eq!(decimal_string(255), "255");
}
