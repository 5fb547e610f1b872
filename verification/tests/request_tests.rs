use ravenserver::request::{build_url, percent_encode, Method};
use ravenserver::ops::{
    create_user_request, delete_user_request, download_request, get_metadata_request,
    login_request, publish_metadata_request, unpublish_request, upload_field_name, upload_request,
};
use ravenserver::session::UserInfo;

fn url(host: &str, req: &ravenserver::request::Request) -> String {
    String::from_utf8(build_url(&host.as_bytes().to_vec(), req)).unwrap()
}

#[test]
fn percent_encode_keeps_unreserved_bytes() {
    let out = percent_encode(&b"AZaz09-._~".to_vec());
    assert_eq!(out, b"AZaz09-._~".to_vec());
}

#[test]
fn percent_encode_escapes_delimiters() {
    let out = percent_encode(&b"a b&c=d/e?f#g%".to_vec());
    assert_eq!(out, b"a%20b%26c%3Dd%2Fe%3Ff%23g%25".to_vec());
}

#[test]
fn percent_encode_escapes_high_bytes() {
    let out = percent_encode(&vec![0u8, 0x0A, 0x7F, 0xFF]);
    assert_eq!(out, b"%00%0A%7F%FF".to_vec());
}

#[test]
fn create_user_url_names_the_endpoint() {
    let req = create_user_request(b"alice".to_vec(), b"p w".to_vec(), b"p w".to_vec()).unwrap();
    assert_eq!(req.method, Method::Post);
    assert_eq!(
        url("http://example.com", &req),
        "http://example.com/themes/user/create?name=alice&pass=p%20w"
    );
}

#[test]
fn login_url_names_the_endpoint() {
    let req = login_request(b"alice".to_vec(), b"hunter2".to_vec());
    assert_eq!(req.method, Method::Get);
    assert_eq!(
        url("http://example.com", &req),
        "http://example.com/themes/user/login?name=alice&pass=hunter2"
    );
}

#[test]
fn delete_user_url_names_user_and_token() {
    let user = UserInfo { name: b"alice".to_vec(), token: b"t&k=n".to_vec() };
    let req = delete_user_request(&user, b"pw".to_vec());
    assert_eq!(req.method, Method::Post);
    assert_eq!(
        url("http://example.com", &req),
        "http://example.com/themes/users/delete/alice?token=t%26k%3Dn&pass=pw"
    );
}

#[test]
fn upload_url_names_theme_and_token() {
    let req = upload_request(&b"foo".to_vec(), &b"tok".to_vec());
    assert_eq!(req.method, Method::Post);
    assert_eq!(
        url("http://example.com", &req),
        "http://example.com/themes/upload?name=foo&token=tok"
    );
    assert_eq!(upload_field_name(), b"fileupload".to_vec());
}

#[test]
fn download_url_has_no_query() {
    let req = download_request(&b"foo".to_vec());
    assert_eq!(req.method, Method::Get);
    assert_eq!(url("http://example.com", &req), "http://example.com/themes/repo/foo");
}

#[test]
fn get_metadata_url_names_the_theme() {
    let req = get_metadata_request(&b"my theme".to_vec());
    assert_eq!(req.method, Method::Get);
    assert_eq!(url("http://example.com", &req), "http://example.com/themes/meta/my%20theme");
}

#[test]
fn publish_metadata_url_carries_kind_value_and_token() {
    let req = publish_metadata_request(
        &b"foo".to_vec(),
        b"screen".to_vec(),
        b"https://x/y.png".to_vec(),
        &b"tok".to_vec(),
    );
    assert_eq!(req.method, Method::Post);
    assert_eq!(
        url("http://example.com", &req),
        "http://example.com/themes/meta/foo?typem=screen&value=https%3A%2F%2Fx%2Fy.png&token=tok"
    );
}

#[test]
fn unpublish_url_names_theme_and_token() {
    let req = unpublish_request(&b"foo".to_vec(), &b"tok".to_vec());
    assert_eq!(req.method, Method::Post);
    assert_eq!(url("http://example.com", &req), "http://example.com/themes/delete/foo?token=tok");
}
