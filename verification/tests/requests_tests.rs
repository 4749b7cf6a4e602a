use place_bot::placement::PlacementTarget;
use place_bot::requests::{
    cookie_header, decimal, draw_request, login_request, pixel_request, Method,
};
use place_bot::session::Session;

#[test]
fn decimal_writes_numbers_without_leading_zeros() {
    assert_eq!(decimal(0), "0");
    assert_eq!(decimal(7), "7");
    assert_eq!(decimal(10), "10");
    assert_eq!(decimal(109), "109");
    assert_eq!(decimal(4294967297), "4294967297");
    assert_eq!(decimal(u64::MAX), "18446744073709551615");
}

#[test]
fn cookies_are_joined_with_semicolon_and_space() {
    assert_eq!(cookie_header(&Vec::new()), "");
    assert_eq!(cookie_header(&vec![String::from("a=1")]), "a=1");
    let three = vec![String::from("a=1"), String::from("b=2"), String::from("c=3")];
    assert_eq!(cookie_header(&three), "a=1; b=2; c=3");
}

#[test]
fn login_request_has_the_documented_shape() {
    let request = login_request("alice", "s3cret");
    assert_eq!(request.method, Method::Post);
    assert_eq!(request.url, "https://www.reddit.com/api/login/alice");
    let form: Vec<(&str, &str)> =
        request.form.iter().map(|f| (f.name.as_str(), f.value.as_str())).collect();
    assert_eq!(
        form,
        vec![("op", "login"), ("user", "alice"), ("passwd", "s3cret"), ("api_type", "json")]
    );
    assert!(request.headers.is_empty());
}

#[test]
fn pixel_request_carries_the_coordinate_in_its_address() {
    let request = pixel_request(3, 140);
    assert_eq!(request.method, Method::Get);
    assert_eq!(request.url, "https://www.reddit.com/api/place/pixel.json?x=3&y=140");
    assert!(request.form.is_empty());
    assert!(request.headers.is_empty());
}

#[test]
fn draw_request_carries_pixel_token_and_cookies() {
    let session = Session {
        cookies: vec![String::from("reddit_session=abc"), String::from("loid=xyz")],
        modhash: String::from("tok123"),
        username: String::from("alice"),
    };
    let target = PlacementTarget { absolute_x: 102, absolute_y: 201, desired: 13 };
    let request = draw_request(&session, target);
    assert_eq!(request.method, Method::Post);
    assert_eq!(request.url, "https://www.reddit.com/api/place/draw.json");
    let form: Vec<(&str, &str)> =
        request.form.iter().map(|f| (f.name.as_str(), f.value.as_str())).collect();
    assert_eq!(form, vec![("x", "102"), ("y", "201"), ("color", "13")]);
    let headers: Vec<(&str, &str)> =
        request.headers.iter().map(|f| (f.name.as_str(), f.value.as_str())).collect();
    assert_eq!(
        headers,
        vec![("x-modhash", "tok123"), ("cookie", "reddit_session=abc; loid=xyz")]
    );
}
