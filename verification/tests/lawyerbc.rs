use carbonbond::error::{Error, ErrorCode};
use carbonbond::lawyerbc::{detail_result, detail_url, search_results, search_status_verdict, search_url};

#[test]
fn detail_url_encodes_the_licence_number() {
    assert_eq!(detail_url("112台檢律字第12345號"),
        "https://lawyerbc.moj.gov.tw/api/cert/info/112%E5%8F%B0%E6%AA%A2%E5%BE%8B%E5%AD%97%E7%AC%AC12345%E8%99%9F");
    assert_eq!(detail_url("a b/c-_.~"), "https://lawyerbc.moj.gov.tw/api/cert/info/a%20b%2Fc-_.~");
    assert_eq!(detail_url(""), "https://lawyerbc.moj.gov.tw/api/cert/info/");
}

#[test]
fn search_url_is_the_registry_search() {
    assert_eq!(search_url(), "https://lawyerbc.moj.gov.tw/api/cert/search");
}

#[test]
fn search_status_verdict_cases() {
    assert_eq!(search_status_verdict(true), Ok(()));
    assert_eq!(
        search_status_verdict(false),
        Err(Error::Logic { code: ErrorCode::SearchingLawyerbcFail, context: None })
    );
}

#[test]
fn search_results_cases() {
    assert_eq!(search_results(Some(vec![1, 2])), Ok(vec![1, 2]));
    assert_eq!(
        search_results::<u8>(None),
        Err(Error::Logic { code: ErrorCode::ParsingJson, context: None })
    );
}

#[test]
fn detail_result_takes_the_first_record() {
    assert_eq!(detail_result(Some(vec!["a", "b"])), Ok("a"));
    assert_eq!(
        detail_result::<&str>(None),
        Err(Error::Logic { code: ErrorCode::ParsingJson, context: None })
    );
}

#[test]
fn detail_url_holds_only_url_safe_characters() {
    let url = detail_url("律師 #1/?&=+é~");
    let encoded = url.strip_prefix("https://lawyerbc.moj.gov.tw/api/cert/info/").unwrap();
    assert!(encoded.chars().all(|c| c.is_ascii_alphanumeric() || "-._~%".contains(c)));
    assert_eq!(encoded, "%E5%BE%8B%E5%B8%AB%20%231%2F%3F%26%3D%2B%C3%A9~");
}
