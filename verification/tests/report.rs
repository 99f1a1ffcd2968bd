use tracy::report::error_body;
use tracy::report::json_array;
use tracy::report::quote_report;
use tracy::text::segment_after_slash;

#[test]
fn json_array_joins_with_commas() {
    assert_eq!(json_array(&vec![]), "[]");
    assert_eq!(json_array(&vec!["{\"a\":1}".to_string()]), "[{\"a\":1}]");
    assert_eq!(
        json_array(&vec!["1".to_string(), "2".to_string(), "3".to_string()]),
        "[1,2,3]"
    );
    assert_eq!(json_array(&vec![String::new(), String::new()]), "[,]");
}

#[test]
fn error_body_is_a_json_object() {
    assert_eq!(error_body("No pool with address x"), "{\"error\": \"No pool with address x\"}");
}

#[test]
fn quote_report_names_chain_pool_and_price() {
    assert_eq!(
        quote_report("osmosis", "osmo1pool", "ujuno", 100000, "uatom", 200000),
        "Chain: osmosis\nPool Address: osmo1pool\nPrice for ujuno 100000 -> uatom 200000\n\n"
    );
}

#[test]
fn segment_is_what_stands_between_the_slashes() {
    assert_eq!(segment_after_slash("ibc/27394F"), Some("27394F"));
    assert_eq!(segment_after_slash("ibc/27394F/more"), Some("27394F"));
    assert_eq!(segment_after_slash("ibc/"), Some(""));
    assert_eq!(segment_after_slash("ibc//x"), Some(""));
    assert_eq!(segment_after_slash("ibc"), None);
    assert_eq!(segment_after_slash(""), None);
    assert_eq!(segment_after_slash("één/twee/drie"), Some("twee"));
    for text in ["ibc/A", "a/b/c", "/", "//", "x/", "/x"] {
        assert_eq!(segment_after_slash(text), text.split('/').nth(1));
    }
}
