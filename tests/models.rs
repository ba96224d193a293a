use extractor::error::ExtractErrorKind;
use extractor::models::{LanguagePolicy, SubmissionLanguage, SubmissionStatus};

#[test]
fn test_language_parsing() {
    assert_eq!("C++".parse(), Ok(SubmissionLanguage::Cpp));
    assert_eq!("c++".parse(), Ok(SubmissionLanguage::Cpp));
    assert_eq!("C++17 O2".parse(), Ok(SubmissionLanguage::Cpp17));
    assert_eq!("C++14".parse(), Ok(SubmissionLanguage::Cpp14));
    assert_eq!("C++11".parse(), Ok(SubmissionLanguage::Cpp11));
    assert_eq!("C++".parse(), Ok(SubmissionLanguage::Cpp));
    assert_eq!("cpp".parse(), Ok(SubmissionLanguage::Cpp));
    assert_eq!("cpp17".parse(), Ok(SubmissionLanguage::Cpp17));
    assert_eq!("c++17".parse(), Ok(SubmissionLanguage::Cpp17));
    assert_eq!("C++17O2".parse(), Ok(SubmissionLanguage::Cpp17));
    assert_eq!("C++ 17".parse(), Ok(SubmissionLanguage::Cpp17));

    assert_eq!("C++17 Clang".parse(), Ok(SubmissionLanguage::Cpp17Clang));
    assert_eq!("C++11 Clang".parse(), Ok(SubmissionLanguage::Cpp11Clang));
    assert_eq!("cpp17 clang".parse(), Ok(SubmissionLanguage::Cpp17Clang));

    assert_eq!(
        "C++11 NOI Linux".parse(),
        Ok(SubmissionLanguage::Cpp11NoiLinux)
    );
    assert_eq!("C++ NOI Linux".parse(), Ok(SubmissionLanguage::CppNoiLinux));

    assert_eq!("C".parse(), Ok(SubmissionLanguage::C));
    assert_eq!("C NOI Linux".parse(), Ok(SubmissionLanguage::CNoiLinux));
    assert_eq!("c".parse(), Ok(SubmissionLanguage::C));

    assert_eq!("C#".parse(), Ok(SubmissionLanguage::Cpp17));
    assert_eq!("CSharp".parse(), Ok(SubmissionLanguage::Cpp17));
}

#[test]
fn blank_language_is_an_error_and_defaults_to_cpp17() {
    let r: Result<SubmissionLanguage, String> = "   ".parse();
    assert_eq!(r, Err("empty language".to_string()));
    assert_eq!(SubmissionLanguage::classify("  "), SubmissionLanguage::Cpp17);
    assert_eq!(SubmissionLanguage::parse_lenient(""), None);
}

#[test]
fn strict_language_needs_a_canonical_token() {
    let strict = LanguagePolicy::Strict;
    assert_eq!(SubmissionLanguage::parse_with("C++17", strict).unwrap(), SubmissionLanguage::Cpp17);
    assert_eq!(SubmissionLanguage::parse_with("cpp11-clang", strict).unwrap(), SubmissionLanguage::Cpp11Clang);
    assert_eq!(SubmissionLanguage::parse_with("C NOI Linux", strict).unwrap(), SubmissionLanguage::CNoiLinux);
    assert_eq!(SubmissionLanguage::parse_with("c++ (noi linux)", strict).unwrap(), SubmissionLanguage::CppNoiLinux);
    match SubmissionLanguage::parse_with("C++17 O2", strict) {
        Err(ExtractErrorKind::LanguageParse(t)) => assert_eq!(t, "C++17 O2"),
        other => panic!("expected a language error, got {:?}", other),
    }
    assert!(SubmissionLanguage::parse_with("CSharp", strict).is_err());
    assert_eq!(
        SubmissionLanguage::parse_with("CSharp", LanguagePolicy::Lenient).unwrap(),
        SubmissionLanguage::Cpp17
    );
}

#[test]
fn status_words_english_and_chinese() {
    assert_eq!(SubmissionStatus::classify("Accepted"), SubmissionStatus::Accepted);
    assert_eq!(SubmissionStatus::classify("  Wrong Answer\n"), SubmissionStatus::WrongAnswer);
    assert_eq!(SubmissionStatus::classify("TIME LIMIT EXCEEDED"), SubmissionStatus::TimeLimitExceeded);
    assert_eq!(SubmissionStatus::classify("Memory Limit Exceeded"), SubmissionStatus::MemoryLimitExceeded);
    assert_eq!(SubmissionStatus::classify("Partially Correct"), SubmissionStatus::PartiallyCorrect);
    assert_eq!(SubmissionStatus::classify("Runtime Error"), SubmissionStatus::RuntimeError);
    assert_eq!(SubmissionStatus::classify("compile error"), SubmissionStatus::CompileError);
    assert_eq!(SubmissionStatus::classify("通过"), SubmissionStatus::Accepted);
    assert_eq!(SubmissionStatus::classify("答案错误"), SubmissionStatus::WrongAnswer);
    assert_eq!(SubmissionStatus::classify("时间超限"), SubmissionStatus::TimeLimitExceeded);
    assert_eq!(SubmissionStatus::classify("Judging"), SubmissionStatus::Unknown);
    assert_eq!(SubmissionStatus::classify(""), SubmissionStatus::Unknown);
}

#[test]
fn status_from_str_rejects_unknown_words() {
    assert_eq!("Accepted".parse(), Ok(SubmissionStatus::Accepted));
    let r: Result<SubmissionStatus, String> = "Pending".parse();
    assert_eq!(r, Err("unknown submission status: Pending".to_string()));
}
