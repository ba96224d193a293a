use extractor::cookie::parse_cookie;
use extractor::models::{Submission, SubmissionLanguage, SubmissionStatus};
use extractor::utils::{map_vjudge_to_origin, parse_mem_to_kb, parse_time_to_ms};

#[test]
fn test_parse_time() {
    assert_eq!(parse_time_to_ms("100ms"), Some(100));
    assert_eq!(parse_time_to_ms("0.2s"), Some(200));
    assert_eq!(parse_time_to_ms("  50  "), Some(50));
}

#[test]
fn test_parse_mem() {
    assert_eq!(parse_mem_to_kb("1MB"), Some(1024));
    assert_eq!(parse_mem_to_kb("512K"), Some(512));
    assert_eq!(parse_mem_to_kb("256"), Some(256));
}

#[test]
fn time_edge_cases() {
    assert_eq!(parse_time_to_ms(""), None);
    assert_eq!(parse_time_to_ms("   "), None);
    assert_eq!(parse_time_to_ms("abc"), None);
    assert_eq!(parse_time_to_ms("2.33s"), Some(2330));
    assert_eq!(parse_time_to_ms("1.9999s"), Some(1999));
    assert_eq!(parse_time_to_ms("12.7ms"), Some(12));
    assert_eq!(parse_time_to_ms("15 MS"), Some(15));
    assert_eq!(parse_time_to_ms("3 S"), Some(3000));
    assert_eq!(parse_time_to_ms("-1.5s"), Some(-1500));
    assert_eq!(parse_time_to_ms("99999999999s"), Some(i32::MAX));
    assert_eq!(parse_time_to_ms("1.2.3s"), None);
}

#[test]
fn memory_edge_cases() {
    assert_eq!(parse_mem_to_kb(""), None);
    assert_eq!(parse_mem_to_kb("1.55MB"), Some(1587));
    assert_eq!(parse_mem_to_kb("0.5m"), Some(512));
    assert_eq!(parse_mem_to_kb("10752kB"), Some(10752));
    assert_eq!(parse_mem_to_kb("2048b"), Some(2));
    assert_eq!(parse_mem_to_kb("1023B"), Some(0));
    assert_eq!(parse_mem_to_kb("10.8"), Some(10));
    assert_eq!(parse_mem_to_kb("0.0009765625MB"), Some(1));
    assert_eq!(parse_mem_to_kb("MB"), None);
    assert_eq!(parse_mem_to_kb("4096GB"), None);
}

fn record(oj: &str, pid: &str, rid: &str) -> Submission {
    Submission {
        code: "x".to_string(),
        pid: pid.to_string(),
        rid: rid.to_string(),
        oj: oj.to_string(),
        language: SubmissionLanguage::Cpp17,
        status: SubmissionStatus::Accepted,
        total_time: 0,
        max_memory: 0,
        score: 100,
    }
}

#[test]
fn vjudge_records_map_to_their_origin() {
    assert_eq!(
        map_vjudge_to_origin(&record("VJudge", " UESTC-126 ", "65377961")),
        Some(("UESTC".to_string(), "126".to_string(), "65377961".to_string()))
    );
    assert_eq!(
        map_vjudge_to_origin(&record("Virtual Judge", "CF/1000/A", "7")),
        Some(("CF".to_string(), "1000".to_string(), "7".to_string()))
    );
    assert_eq!(map_vjudge_to_origin(&record("vjudge", "1000", "7")), None);
    assert_eq!(map_vjudge_to_origin(&record("luogu", "UESTC-126", "7")), None);
}

#[test]
fn cookies_and_service_host() {
    let c = parse_cookie("login=abc; theme=dark ;connect.sid=s%3A1.x; login = def ", "https://oj.7fa4.cn/submit");
    assert_eq!(c.login.as_deref(), Some("def"));
    assert_eq!(c.connect_sid.as_deref(), Some("s%3A1.x"));
    assert_eq!(c.chost.as_deref(), Some("oj.7fa4.cn"));
    let c = parse_cookie("", "https://jx.7fa4.cn:8888/");
    assert_eq!(c.login, None);
    assert_eq!(c.connect_sid, None);
    assert_eq!(c.chost.as_deref(), Some("jx.7fa4.cn:8888"));
    assert_eq!(parse_cookie("x", "http://in.7fa4.cn").chost.as_deref(), Some("in.7fa4.cn:8888"));
    assert_eq!(parse_cookie("x", "http://localhost:8080/a").chost.as_deref(), Some("localhost:8080"));
    assert_eq!(parse_cookie("x", "https://Example.COM:443/").chost.as_deref(), Some("example.com"));
    assert_eq!(parse_cookie("x", "not a url").chost, None);
}
