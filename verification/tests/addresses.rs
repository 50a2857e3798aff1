use yandex_dictionary::url::build_langs_url;
use yandex_dictionary::url::build_lookup_url;
use yandex_dictionary::url::url_encode;
use yandex_dictionary::API_URL;

#[test]
fn the_address_of_the_service() {
    assert_eq!(API_URL, "https://dictionary.yandex.net/api/v1/dicservice.json");
}

#[test]
fn url_encode_leaves_what_is_unreserved() {
    let unreserved = "ABCDEFGHIJKLMNOPQRSTUVWXYZabcdefghijklmnopqrstuvwxyz0123456789-._~";
    assert_eq!(url_encode(unreserved), unreserved);
    assert_eq!(url_encode(""), "");
    assert_eq!(url_encode("rust"), "rust");
    assert_eq!(url_encode("en-ru"), "en-ru");
}

#[test]
fn url_encode_escapes_the_rest_of_ascii() {
    assert_eq!(url_encode(" "), "%20");
    assert_eq!(url_encode("a b"), "a%20b");
    assert_eq!(url_encode("%"), "%25");
    assert_eq!(url_encode("+&=?#/"), "%2B%26%3D%3F%23%2F");
    assert_eq!(url_encode("@[`{"), "%40%5B%60%7B");
    assert_eq!(url_encode("/:"), "%2F%3A");
    assert_eq!(url_encode("\u{0}\n\u{7f}"), "%00%0A%7F");
    assert_eq!(url_encode("!\"$'()*,;<>\\^|}"), "%21%22%24%27%28%29%2A%2C%3B%3C%3E%5C%5E%7C%7D");
}

#[test]
fn url_encode_escapes_each_byte_of_a_character() {
    assert_eq!(url_encode("é"), "%C3%A9");
    assert_eq!(url_encode("ʌ"), "%CA%8C");
    assert_eq!(url_encode("ржавчина"), "%D1%80%D0%B6%D0%B0%D0%B2%D1%87%D0%B8%D0%BD%D0%B0");
    assert_eq!(url_encode("€"), "%E2%82%AC");
    assert_eq!(url_encode("\u{1F600}"), "%F0%9F%98%80");
    assert_eq!(url_encode("\u{10FFFF}"), "%F4%8F%BF%BF");
    assert_eq!(url_encode("\u{ff}"), "%C3%BF");
}

#[test]
fn the_address_of_the_languages() {
    assert_eq!(
        build_langs_url("dict.1.1.key"),
        "https://dictionary.yandex.net/api/v1/dicservice.json/getLangs?key=dict.1.1.key"
    );
    assert_eq!(build_langs_url(""), format!("{}/getLangs?key=", API_URL));
}

#[test]
fn the_address_of_a_lookup() {
    assert_eq!(
        build_lookup_url("dict.1.1.key", "en-ru", "rust"),
        "https://dictionary.yandex.net/api/v1/dicservice.json/lookup?key=dict.1.1.key&lang=en-ru&text=rust"
    );
    assert_eq!(
        build_lookup_url("k", "ru-en", "ржа веть"),
        format!("{}/lookup?key=k&lang=ru-en&text=%D1%80%D0%B6%D0%B0%20%D0%B2%D0%B5%D1%82%D1%8C", API_URL)
    );
    assert_eq!(build_lookup_url("k", "", ""), format!("{}/lookup?key=k&lang=&text=", API_URL));
}
