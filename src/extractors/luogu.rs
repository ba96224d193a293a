//! Records of luogu.com.cn.

use vstd::prelude::*;

use crate::error::{blank, empty_content, is_blank, validate_submission, validated, Error, Result};
use crate::fields::{
    all, all_in, first, first_in, first_some, first_text, first_text_in, last_word, last_word_of,
    or_empty, or_zero, parse_int, text_or_empty, trimmed_text,
};
use crate::markup::{
    attr, capture, element_attr, element_text, parse_page, pattern_group, text, Page,
};
use crate::models::{
    language_or_default, status_of, Submission, SubmissionLanguage, SubmissionStatus,
    SubmissionView,
};
use crate::text::{chars_of, contains, includes, same, string_of, trim};
use crate::utils::{memory_kb, parse_mem_to_kb, parse_time_to_ms, time_ms};

verus! {

/// A problem link's path.
pub const PROBLEM_PATTERN: &'static str = r"/problem/(P?\d+)";

/// A record url.
pub const RECORD_PATTERN: &'static str = r"(?:https?://(?:www\.)?luogu\.com\.cn)?/record/(\d+)";

/// The first number in a line.
pub const SCORE_PATTERN: &'static str = r"(\d+)";

/// Extracts records from luogu's record pages.
#[derive(Clone, Copy, Debug)]
pub struct LuoguExtractor {}

/// (language text, time, memory) after the fields of the statistics block up to `i`.
pub open spec fn info_upto(source: Seq<char>, fields: Seq<usize>, i: int) -> (Seq<char>, i32, i32)
    decreases i,
{
    if i <= 0 || i > fields.len() {
        (Seq::empty(), 0, 0)
    } else {
        let before = info_upto(source, fields, i - 1);
        let key = or_empty(first_text_in(source, Some(fields[i - 1]), ".key"@));
        let value = or_empty(first_text_in(source, Some(fields[i - 1]), ".value"@));
        if key == "编程语言"@ {
            (value, before.1, before.2)
        } else if key == "用时"@ {
            (before.0, or_zero(time_ms(value)), before.2)
        } else if key == "内存"@ {
            (before.0, before.1, or_zero(memory_kb(value)))
        } else {
            before
        }
    }
}

/// The language text, time and memory from the statistics block's key/value fields.
pub open spec fn basic_info(source: Seq<char>) -> (Seq<char>, i32, i32) {
    match first_in(source, None, ".stat.color-inverse"@) {
        Some(stat) => {
            let fields = all_in(source, Some(stat), ".field"@);
            info_upto(source, fields, fields.len() as int)
        },
        None => (Seq::empty(), 0, 0),
    }
}

/// The node when it carries a `language-*` class.
pub open spec fn highlighted(source: Seq<char>, node: usize) -> Option<usize> {
    match element_attr(source, node, "class"@) {
        Some(c) => if contains(c, "language-"@) {
            Some(node)
        } else {
            None
        },
        None => None,
    }
}

pub open spec fn highlighted_in(source: Seq<char>) -> spec_fn(usize) -> Option<usize> {
    |n: usize| highlighted(source, n)
}

/// The code: the first `code` element with a `language-*` class, else the first `code` element,
/// else the first `pre` element, trimmed.
pub open spec fn code_of(source: Seq<char>) -> Seq<char> {
    let codes = all_in(source, None, "code"@);
    match first_some(codes, highlighted_in(source), 0) {
        Some(n) => trim(element_text(source, n)),
        None => if codes.len() > 0 {
            trim(element_text(source, codes[0]))
        } else {
            or_empty(first_text_in(source, None, "pre"@))
        },
    }
}

/// The problem id that a link names.
pub open spec fn problem_ref(source: Seq<char>, node: usize) -> Option<Seq<char>> {
    match element_attr(source, node, "href"@) {
        Some(h) => if contains(h, "/problem/"@) {
            pattern_group(PROBLEM_PATTERN@, h, 1)
        } else {
            None
        },
        None => None,
    }
}

pub open spec fn problem_ref_in(source: Seq<char>) -> spec_fn(usize) -> Option<Seq<char>> {
    |n: usize| problem_ref(source, n)
}

/// The problem id of the first link to a problem.
pub open spec fn pid_of(source: Seq<char>) -> Seq<char> {
    or_empty(first_some(all_in(source, None, "a"@), problem_ref_in(source), 0))
}

/// (status, score) after the info rows up to `i`: a row mentioning the verdict gives its last
/// word as the status, a row mentioning the score gives its first number.
pub open spec fn rows_upto(source: Seq<char>, rows: Seq<usize>, i: int) -> (SubmissionStatus, i32)
    decreases i,
{
    if i <= 0 || i > rows.len() {
        (SubmissionStatus::Unknown, 0)
    } else {
        let before = rows_upto(source, rows, i - 1);
        let t = element_text(source, rows[i - 1]);
        let status = if contains(t, "评测状态"@) {
            status_of(last_word(t))
        } else {
            before.0
        };
        let score = if contains(t, "评测分数"@) {
            match pattern_group(SCORE_PATTERN@, t, 1) {
                Some(g) => or_zero(crate::fields::int_of(g)),
                None => before.1,
            }
        } else {
            before.1
        };
        (status, score)
    }
}

pub open spec fn status_and_score(source: Seq<char>) -> (SubmissionStatus, i32) {
    let rows = all_in(source, None, ".info-rows div"@);
    rows_upto(source, rows, rows.len() as int)
}

/// The record id in the url.
pub open spec fn rid_of(url: Seq<char>) -> Seq<char> {
    or_empty(pattern_group(RECORD_PATTERN@, url, 1))
}

/// The record assembled from a page, before its required fields are checked.
pub open spec fn record(url: Seq<char>, source: Seq<char>) -> SubmissionView {
    let info = basic_info(source);
    let judged = status_and_score(source);
    SubmissionView {
        code: code_of(source),
        pid: pid_of(source),
        rid: rid_of(url),
        oj: "luogu"@,
        language: language_or_default(info.0),
        status: judged.0,
        total_time: info.1,
        max_memory: info.2,
        score: judged.1,
    }
}

impl LuoguExtractor {
    fn extract_basic_info(page: &Page) -> (r: (Vec<char>, i32, i32))
        ensures
            (r.0@, r.1, r.2) == basic_info(page@),
    {
        let stat = match first(page, None, ".stat.color-inverse") {
            Some(n) => n,
            None => return (Vec::new(), 0, 0),
        };
        let fields = all(page, Some(stat), ".field");
        let mut language: Vec<char> = Vec::new();
        let mut total_time: i32 = 0;
        let mut max_memory: i32 = 0;
        for i in 0..fields.len()
            invariant
                fields@ == all_in(page@, Some(stat), ".field"@),
                (language@, total_time, max_memory) == info_upto(page@, fields@, i as int),
        {
            let key = text_or_empty(first_text(page, Some(fields[i]), ".key"));
            let value = text_or_empty(first_text(page, Some(fields[i]), ".value"));
            let value_str = string_of(&value);
            if same(&key, &chars_of("编程语言")) {
                language = value;
            } else if same(&key, &chars_of("用时")) {
                total_time = match parse_time_to_ms(value_str.as_str()) {
                    Some(v) => v,
                    None => 0,
                };
            } else if same(&key, &chars_of("内存")) {
                max_memory = match parse_mem_to_kb(value_str.as_str()) {
                    Some(v) => v,
                    None => 0,
                };
            }
        }
        (language, total_time, max_memory)
    }

    fn extract_code(page: &Page) -> (r: Vec<char>)
        ensures
            r@ == code_of(page@),
    {
        let codes = all(page, None, "code");
        for i in 0..codes.len()
            invariant
                codes@ == all_in(page@, None, "code"@),
                first_some(codes@, highlighted_in(page@), 0) == first_some(
                    codes@,
                    highlighted_in(page@),
                    i as int,
                ),
        {
            let marked = match attr(page, codes[i], "class") {
                Some(c) => includes(&c, &chars_of("language-")),
                None => false,
            };
            if marked {
                return trimmed_text(page, codes[i]);
            }
        }
        if codes.len() > 0 {
            return trimmed_text(page, codes[0]);
        }
        text_or_empty(first_text(page, None, "pre"))
    }

    fn extract_pid(page: &Page) -> (r: Vec<char>)
        ensures
            r@ == pid_of(page@),
    {
        let anchors = all(page, None, "a");
        for i in 0..anchors.len()
            invariant
                anchors@ == all_in(page@, None, "a"@),
                first_some(anchors@, problem_ref_in(page@), 0) == first_some(
                    anchors@,
                    problem_ref_in(page@),
                    i as int,
                ),
        {
            if let Some(href) = attr(page, anchors[i], "href") {
                if includes(&href, &chars_of("/problem/")) {
                    if let Some(p) = capture(PROBLEM_PATTERN, &href, 1) {
                        return p;
                    }
                }
            }
        }
        Vec::new()
    }

    fn extract_status_and_score(page: &Page) -> (r: (SubmissionStatus, i32))
        ensures
            r == status_and_score(page@),
    {
        let rows = all(page, None, ".info-rows div");
        let mut status = SubmissionStatus::Unknown;
        let mut score: i32 = 0;
        for i in 0..rows.len()
            invariant
                rows@ == all_in(page@, None, ".info-rows div"@),
                (status, score) == rows_upto(page@, rows@, i as int),
        {
            let t = text(page, rows[i]);
            if includes(&t, &chars_of("评测状态")) {
                status = SubmissionStatus::classify(string_of(&last_word_of(&t)).as_str());
            }
            if includes(&t, &chars_of("评测分数")) {
                if let Some(g) = capture(SCORE_PATTERN, &t, 1) {
                    score = match parse_int(&g) {
                        Some(v) => v,
                        None => 0,
                    };
                }
            }
        }
        (status, score)
    }

    fn extract_rid(url: &str) -> (r: Vec<char>)
        ensures
            r@ == rid_of(url@),
    {
        text_or_empty(capture(RECORD_PATTERN, &chars_of(url), 1))
    }

    fn extract_partial(&self, url: &str, content: &str) -> (r: Submission)
        ensures
            r@ == record(url@, content@),
    {
        let page = parse_page(content);
        let (language_text, total_time, max_memory) = LuoguExtractor::extract_basic_info(&page);
        let code = LuoguExtractor::extract_code(&page);
        let pid = LuoguExtractor::extract_pid(&page);
        let (status, score) = LuoguExtractor::extract_status_and_score(&page);
        let rid = LuoguExtractor::extract_rid(url);
        let language = SubmissionLanguage::classify(string_of(&language_text).as_str());
        Submission {
            code: string_of(&code),
            pid: string_of(&pid),
            rid: string_of(&rid),
            oj: "luogu".to_string(),
            language,
            status,
            total_time,
            max_memory,
            score,
        }
    }

    /// Extracts the record from a luogu record page: `EmptyContent` for blank markup, else the
    /// assembled record, checked for its required fields.
    pub fn extract(&self, url: &str, content: &str) -> (r: Result<Submission>)
        ensures
            blank(content@) ==> (r matches Err(Error::Extract(e)) && e.kind is EmptyContent
                && e.partial is None),
            !blank(content@) ==> validated(record(url@, content@), r),
    {
        if is_blank(content) {
            return Err(empty_content());
        }
        validate_submission(self.extract_partial(url, content))
    }
}

} // verus!
