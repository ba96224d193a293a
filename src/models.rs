//! The submission record and its enumerated fields.

use vstd::prelude::*;

use crate::error::ExtractErrorKind;
use crate::text::{
    chars_of, contains, fold, fold_chars, includes, is_space, same, trim, trimmed, without,
    without_spaces,
};

verus! {

/// A submission record in normalised form.
#[derive(Clone, Debug, PartialEq, Eq)]
pub struct Submission {
    /// The source text of the solution.
    pub code: String,
    /// The problem's identifier on its site.
    pub pid: String,
    /// The run (record) identifier on its site.
    pub rid: String,
    /// The judge the record comes from.
    pub oj: String,
    pub language: SubmissionLanguage,
    pub status: SubmissionStatus,
    /// Milliseconds.
    pub total_time: i32,
    /// Kibibytes.
    pub max_memory: i32,
    pub score: i32,
}

/// A submission record as values: its strings as character sequences.
pub struct SubmissionView {
    pub code: Seq<char>,
    pub pid: Seq<char>,
    pub rid: Seq<char>,
    pub oj: Seq<char>,
    pub language: SubmissionLanguage,
    pub status: SubmissionStatus,
    pub total_time: i32,
    pub max_memory: i32,
    pub score: i32,
}

impl View for Submission {
    type V = SubmissionView;

    open spec fn view(&self) -> SubmissionView {
        SubmissionView {
            code: self.code@,
            pid: self.pid@,
            rid: self.rid@,
            oj: self.oj@,
            language: self.language,
            status: self.status,
            total_time: self.total_time,
            max_memory: self.max_memory,
            score: self.score,
        }
    }
}

impl Default for Submission {
    fn default() -> (r: Self)
        ensures
            r.code@.len() == 0,
            r.pid@.len() == 0,
            r.rid@.len() == 0,
            r.oj@.len() == 0,
            r.language == SubmissionLanguage::Cpp17,
            r.status == SubmissionStatus::Unknown,
            r.total_time == 0,
            r.max_memory == 0,
            r.score == 0,
    {
        Submission {
            code: String::new(),
            pid: String::new(),
            rid: String::new(),
            oj: String::new(),
            language: SubmissionLanguage::Cpp17,
            status: SubmissionStatus::Unknown,
            total_time: 0,
            max_memory: 0,
            score: 0,
        }
    }
}

/// A judge's verdict on a submission.
#[derive(Clone, Copy, Debug, PartialEq, Eq, Structural)]
pub enum SubmissionStatus {
    Unknown,
    Accepted,
    WrongAnswer,
    PartiallyCorrect,
    RuntimeError,
    CompileError,
    TimeLimitExceeded,
    MemoryLimitExceeded,
}

impl Default for SubmissionStatus {
    fn default() -> (r: Self)
        ensures
            r == SubmissionStatus::Unknown,
    {
        SubmissionStatus::Unknown
    }
}

/// The verdict words, English and Chinese, in the form `compact` leaves them, with the verdict
/// each one stands for.
pub open spec fn status_table() -> Seq<(Seq<char>, SubmissionStatus)> {
    seq![
        ("unknown"@, SubmissionStatus::Unknown),
        ("accepted"@, SubmissionStatus::Accepted),
        ("wronganswer"@, SubmissionStatus::WrongAnswer),
        ("partiallycorrect"@, SubmissionStatus::PartiallyCorrect),
        ("runtimeerror"@, SubmissionStatus::RuntimeError),
        ("compileerror"@, SubmissionStatus::CompileError),
        ("timelimitexceeded"@, SubmissionStatus::TimeLimitExceeded),
        ("memorylimitexceeded"@, SubmissionStatus::MemoryLimitExceeded),
        ("未知"@, SubmissionStatus::Unknown),
        ("通过"@, SubmissionStatus::Accepted),
        ("答案正确"@, SubmissionStatus::Accepted),
        ("答案错误"@, SubmissionStatus::WrongAnswer),
        ("部分正确"@, SubmissionStatus::PartiallyCorrect),
        ("运行错误"@, SubmissionStatus::RuntimeError),
        ("运行时错误"@, SubmissionStatus::RuntimeError),
        ("编译错误"@, SubmissionStatus::CompileError),
        ("时间超限"@, SubmissionStatus::TimeLimitExceeded),
        ("运行超时"@, SubmissionStatus::TimeLimitExceeded),
        ("内存超限"@, SubmissionStatus::MemoryLimitExceeded),
    ]
}

/// Text as the verdict table is keyed: whitespace taken out, ASCII letters in lower case.
pub open spec fn compact(s: Seq<char>) -> Seq<char> {
    fold(without(s, |c: char| is_space(c)))
}

/// The verdict of the first entry of `table`, from `i` on, whose word is `t`.
pub open spec fn lookup_from(
    table: Seq<(Seq<char>, SubmissionStatus)>,
    t: Seq<char>,
    i: int,
) -> Option<SubmissionStatus>
    decreases table.len() - i,
{
    if i < 0 || i >= table.len() {
        None
    } else if table[i].0 == t {
        Some(table[i].1)
    } else {
        lookup_from(table, t, i + 1)
    }
}

/// The verdict that free text names, if the table holds it.
pub open spec fn status_word(s: Seq<char>) -> Option<SubmissionStatus> {
    lookup_from(status_table(), compact(s), 0)
}

/// The verdict of free text: unrecognised text is `Unknown`.
pub open spec fn status_of(s: Seq<char>) -> SubmissionStatus {
    match status_word(s) {
        Some(st) => st,
        None => SubmissionStatus::Unknown,
    }
}

fn status_entries() -> (r: Vec<(Vec<char>, SubmissionStatus)>)
    ensures
        r@.len() == status_table().len(),
        forall|i: int|
            0 <= i < r@.len() ==> (#[trigger] r@[i]).0@ == status_table()[i].0 && r@[i].1
                == status_table()[i].1,
{
    let r: Vec<(Vec<char>, SubmissionStatus)> = vec![
        (chars_of("unknown"), SubmissionStatus::Unknown),
        (chars_of("accepted"), SubmissionStatus::Accepted),
        (chars_of("wronganswer"), SubmissionStatus::WrongAnswer),
        (chars_of("partiallycorrect"), SubmissionStatus::PartiallyCorrect),
        (chars_of("runtimeerror"), SubmissionStatus::RuntimeError),
        (chars_of("compileerror"), SubmissionStatus::CompileError),
        (chars_of("timelimitexceeded"), SubmissionStatus::TimeLimitExceeded),
        (chars_of("memorylimitexceeded"), SubmissionStatus::MemoryLimitExceeded),
        (chars_of("未知"), SubmissionStatus::Unknown),
        (chars_of("通过"), SubmissionStatus::Accepted),
        (chars_of("答案正确"), SubmissionStatus::Accepted),
        (chars_of("答案错误"), SubmissionStatus::WrongAnswer),
        (chars_of("部分正确"), SubmissionStatus::PartiallyCorrect),
        (chars_of("运行错误"), SubmissionStatus::RuntimeError),
        (chars_of("运行时错误"), SubmissionStatus::RuntimeError),
        (chars_of("编译错误"), SubmissionStatus::CompileError),
        (chars_of("时间超限"), SubmissionStatus::TimeLimitExceeded),
        (chars_of("运行超时"), SubmissionStatus::TimeLimitExceeded),
        (chars_of("内存超限"), SubmissionStatus::MemoryLimitExceeded),
    ];
    r
}

/// The verdict that `s` names, looked up in the verdict table.
pub fn status_word_of(s: &str) -> (r: Option<SubmissionStatus>)
    ensures
        r == status_word(s@),
{
    let table = status_entries();
    let t = fold_chars(&without_spaces(&chars_of(s)));
    let mut i: usize = 0;
    while i < table.len()
        invariant
            i <= table@.len() == status_table().len(),
            t@ == compact(s@),
            forall|k: int|
                0 <= k < table@.len() ==> (#[trigger] table@[k]).0@ == status_table()[k].0
                    && table@[k].1 == status_table()[k].1,
            lookup_from(status_table(), t@, 0) == lookup_from(status_table(), t@, i as int),
        decreases table.len() - i,
    {
        if same(&table[i].0, &t) {
            return Some(table[i].1);
        }
        i = i + 1;
    }
    None
}

impl SubmissionStatus {
    /// The verdict of free text; text that names no verdict is `Unknown`, never an error.
    pub fn classify(s: &str) -> (r: SubmissionStatus)
        ensures
            r == status_of(s@),
    {
        match status_word_of(s) {
            Some(st) => st,
            None => SubmissionStatus::Unknown,
        }
    }
}


/// The language a submission is written in.
#[derive(Clone, Copy, Debug, PartialEq, Eq, Structural)]
pub enum SubmissionLanguage {
    Cpp14,
    Cpp17,
    Cpp11,
    Cpp,
    CppNoiLinux,
    Cpp11NoiLinux,
    Cpp11Clang,
    Cpp17Clang,
    C,
    CNoiLinux,
}

impl Default for SubmissionLanguage {
    fn default() -> (r: Self)
        ensures
            r == SubmissionLanguage::Cpp17,
    {
        SubmissionLanguage::Cpp17
    }
}

/// How free text that names no known language is treated.
#[derive(Clone, Copy, Debug, PartialEq, Eq, Structural)]
pub enum LanguagePolicy {
    /// Markers found anywhere in the text decide; text without a C marker is C++17.
    Lenient,
    /// The text must spell one canonical token exactly; anything else is an error.
    Strict,
}

/// The lenient reading. `None` only for blank text.
pub open spec fn lenient_language(s: Seq<char>) -> Option<SubmissionLanguage> {
    let t = fold(trim(s));
    let clang = contains(t, "clang"@);
    let noi = contains(t, "noi"@) && contains(t, "linux"@);
    if t.len() == 0 {
        None
    } else if contains(t, "c++"@) || contains(t, "cpp"@) {
        Some(
            if clang {
                if contains(t, "17"@) {
                    SubmissionLanguage::Cpp17Clang
                } else {
                    SubmissionLanguage::Cpp11Clang
                }
            } else if noi {
                if contains(t, "11"@) {
                    SubmissionLanguage::Cpp11NoiLinux
                } else {
                    SubmissionLanguage::CppNoiLinux
                }
            } else if contains(t, "17"@) {
                SubmissionLanguage::Cpp17
            } else if contains(t, "14"@) {
                SubmissionLanguage::Cpp14
            } else if contains(t, "11"@) {
                SubmissionLanguage::Cpp11
            } else {
                SubmissionLanguage::Cpp
            },
        )
    } else if contains(t, "c"@) && !contains(t, "c#"@) && !contains(t, "cs"@) {
        Some(
            if noi {
                SubmissionLanguage::CNoiLinux
            } else {
                SubmissionLanguage::C
            },
        )
    } else {
        Some(SubmissionLanguage::Cpp17)
    }
}

/// The lenient reading with blank text falling back to the default, C++17.
pub open spec fn language_or_default(s: Seq<char>) -> SubmissionLanguage {
    match lenient_language(s) {
        Some(l) => l,
        None => SubmissionLanguage::Cpp17,
    }
}

/// A separator that the strict reading drops.
pub open spec fn is_separator(c: char) -> bool {
    is_space(c) || c == '-' || c == '_' || c == '.' || c == '(' || c == ')' || c == '/'
}

/// The strict reading's token: ASCII letters folded, each `+` spelled `p` (so `c++` reads
/// `cpp`), separators dropped.
pub open spec fn language_token(s: Seq<char>) -> Seq<char> {
    without(fold(s), |c: char| is_separator(c)).map_values(
        |c: char|
            if c == '+' {
                'p'
            } else {
                c
            },
    )
}

/// The strict reading: the token must be one of the canonical ones.
pub open spec fn strict_language(s: Seq<char>) -> Option<SubmissionLanguage> {
    let t = language_token(s);
    if t == "cpp14"@ {
        Some(SubmissionLanguage::Cpp14)
    } else if t == "cpp17"@ {
        Some(SubmissionLanguage::Cpp17)
    } else if t == "cpp11"@ {
        Some(SubmissionLanguage::Cpp11)
    } else if t == "cpp"@ {
        Some(SubmissionLanguage::Cpp)
    } else if t == "cppnoilinux"@ {
        Some(SubmissionLanguage::CppNoiLinux)
    } else if t == "cpp11noilinux"@ {
        Some(SubmissionLanguage::Cpp11NoiLinux)
    } else if t == "cpp11clang"@ {
        Some(SubmissionLanguage::Cpp11Clang)
    } else if t == "cpp17clang"@ {
        Some(SubmissionLanguage::Cpp17Clang)
    } else if t == "c"@ {
        Some(SubmissionLanguage::C)
    } else if t == "cnoilinux"@ {
        Some(SubmissionLanguage::CNoiLinux)
    } else {
        None
    }
}

pub open spec fn language_by(s: Seq<char>, policy: LanguagePolicy) -> Option<SubmissionLanguage> {
    match policy {
        LanguagePolicy::Lenient => lenient_language(s),
        LanguagePolicy::Strict => strict_language(s),
    }
}

fn token_of(s: &str) -> (r: Vec<char>)
    ensures
        r@ == language_token(s@),
{
    let f = fold_chars(&chars_of(s));
    let mut r: Vec<char> = Vec::new();
    let ghost kept = without(f@, |c: char| is_separator(c));
    for i in 0..f.len()
        invariant
            r@ == without(f@.subrange(0, i as int), |c: char| is_separator(c)).map_values(
                |c: char|
                    if c == '+' {
                        'p'
                    } else {
                        c
                    },
            ),
    {
        let c = f[i];
        proof {
            let p = f@.subrange(0, i as int);
            assert(f@.subrange(0, i + 1) =~= p.push(c));
            reveal(Seq::filter);
            assert(p.push(c).drop_last() =~= p);
        }
        let sep = crate::text::space(c) || c == '-' || c == '_' || c == '.' || c == '(' || c
            == ')' || c == '/';
        if !sep {
            let d = if c == '+' {
                'p'
            } else {
                c
            };
            r.push(d);
        }
        assert(r@ =~= without(f@.subrange(0, i + 1), |c: char| is_separator(c)).map_values(
            |c: char|
                if c == '+' {
                    'p'
                } else {
                    c
                },
        ));
    }
    assert(f@.subrange(0, f.len() as int) =~= f@);
    r
}

impl SubmissionLanguage {
    /// The lenient reading of free text; `None` only for blank text.
    pub fn parse_lenient(s: &str) -> (r: Option<SubmissionLanguage>)
        ensures
            r == lenient_language(s@),
    {
        let t = fold_chars(&trimmed(&chars_of(s)));
        if t.len() == 0 {
            return None;
        }
        let clang = includes(&t, &chars_of("clang"));
        let noi = includes(&t, &chars_of("noi")) && includes(&t, &chars_of("linux"));
        if includes(&t, &chars_of("c++")) || includes(&t, &chars_of("cpp")) {
            if clang {
                if includes(&t, &chars_of("17")) {
                    Some(SubmissionLanguage::Cpp17Clang)
                } else {
                    Some(SubmissionLanguage::Cpp11Clang)
                }
            } else if noi {
                if includes(&t, &chars_of("11")) {
                    Some(SubmissionLanguage::Cpp11NoiLinux)
                } else {
                    Some(SubmissionLanguage::CppNoiLinux)
                }
            } else if includes(&t, &chars_of("17")) {
                Some(SubmissionLanguage::Cpp17)
            } else if includes(&t, &chars_of("14")) {
                Some(SubmissionLanguage::Cpp14)
            } else if includes(&t, &chars_of("11")) {
                Some(SubmissionLanguage::Cpp11)
            } else {
                Some(SubmissionLanguage::Cpp)
            }
        } else if includes(&t, &chars_of("c")) && !includes(&t, &chars_of("c#")) && !includes(
            &t,
            &chars_of("cs"),
        ) {
            if noi {
                Some(SubmissionLanguage::CNoiLinux)
            } else {
                Some(SubmissionLanguage::C)
            }
        } else {
            Some(SubmissionLanguage::Cpp17)
        }
    }

    /// The strict reading: exactly one canonical token, else `None`.
    pub fn parse_strict(s: &str) -> (r: Option<SubmissionLanguage>)
        ensures
            r == strict_language(s@),
    {
        let t = token_of(s);
        if same(&t, &chars_of("cpp14")) {
            Some(SubmissionLanguage::Cpp14)
        } else if same(&t, &chars_of("cpp17")) {
            Some(SubmissionLanguage::Cpp17)
        } else if same(&t, &chars_of("cpp11")) {
            Some(SubmissionLanguage::Cpp11)
        } else if same(&t, &chars_of("cpp")) {
            Some(SubmissionLanguage::Cpp)
        } else if same(&t, &chars_of("cppnoilinux")) {
            Some(SubmissionLanguage::CppNoiLinux)
        } else if same(&t, &chars_of("cpp11noilinux")) {
            Some(SubmissionLanguage::Cpp11NoiLinux)
        } else if same(&t, &chars_of("cpp11clang")) {
            Some(SubmissionLanguage::Cpp11Clang)
        } else if same(&t, &chars_of("cpp17clang")) {
            Some(SubmissionLanguage::Cpp17Clang)
        } else if same(&t, &chars_of("c")) {
            Some(SubmissionLanguage::C)
        } else if same(&t, &chars_of("cnoilinux")) {
            Some(SubmissionLanguage::CNoiLinux)
        } else {
            None
        }
    }

    /// Reads free text under the given policy; text that the policy does not accept is a
    /// `LanguageParse` error carrying the text.
    pub fn parse_with(s: &str, policy: LanguagePolicy) -> (r: Result<
        SubmissionLanguage,
        ExtractErrorKind,
    >)
        ensures
            r matches Ok(l) ==> language_by(s@, policy) == Some(l),
            r matches Err(e) ==> (e matches ExtractErrorKind::LanguageParse(t) && t@ == s@),
            r is Ok <==> language_by(s@, policy) is Some,
    {
        let found = match policy {
            LanguagePolicy::Lenient => SubmissionLanguage::parse_lenient(s),
            LanguagePolicy::Strict => SubmissionLanguage::parse_strict(s),
        };
        match found {
            Some(l) => Ok(l),
            None => Err(ExtractErrorKind::LanguageParse(s.to_string())),
        }
    }

    /// The lenient reading, blank text falling back to C++17. The site extractors read
    /// languages this way, so unfamiliar text never fails an extraction.
    pub fn classify(s: &str) -> (r: SubmissionLanguage)
        ensures
            r == language_or_default(s@),
    {
        match SubmissionLanguage::parse_lenient(s) {
            Some(l) => l,
            None => SubmissionLanguage::Cpp17,
        }
    }
}


impl std::str::FromStr for SubmissionStatus {
    type Err = String;

    /// The verdict that the text names; unrecognised text is an error that quotes it.
    fn from_str(s: &str) -> Result<SubmissionStatus, String> {
        match status_word_of(s) {
            Some(st) => Ok(st),
            None => {
                let mut message = chars_of("unknown submission status: ");
                crate::text::push_all(&mut message, &chars_of(s));
                Err(crate::text::string_of(&message))
            },
        }
    }
}

impl std::str::FromStr for SubmissionLanguage {
    type Err = String;

    /// The lenient reading; blank text is an error.
    fn from_str(s: &str) -> Result<SubmissionLanguage, String> {
        match SubmissionLanguage::parse_lenient(s) {
            Some(l) => Ok(l),
            None => Err("empty language".to_string()),
        }
    }
}

} // verus!
