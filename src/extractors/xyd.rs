//! Records of xinyoudui.com.

use vstd::prelude::*;

use crate::error::{blank, empty_content, is_blank, validate_submission, validated, Error, Result};
use crate::fields::{
    all, all_in, first, first_in, first_some, first_text, first_text_in, int_of, or_empty, or_zero,
    parse_int, text_or_empty, trimmed_text,
};
use crate::markup::{capture, element_text, parse_page, pattern_group, text, Page};
use crate::models::{
    language_or_default, status_of, Submission, SubmissionLanguage, SubmissionStatus,
    SubmissionView,
};
use crate::text::{chars_of, push_all, string_of, trim, trim_end, trimmed_end};

verus! {

/// The problem id label of a tag.
pub const PROBLEM_PATTERN: &'static str = r"题目ID：\s*(\d+)";

/// A problem url inside a contest.
pub const RECORD_PATTERN: &'static str =
    r"https://(?:www\.)?xinyoudui\.com/ac/contest/.*?/problem/(\d+)";

/// The time and memory line of the compilation report.
pub const TIME_MEM_PATTERN: &'static str = r"time: (\d+)ms, memory: (\d+)kb";

/// A score in points.
pub const SCORE_PATTERN: &'static str = r"(\d+)\s*分";

/// The selected row of the submissions table.
pub const SELECTED_ROW: &'static str = "tr.ac-ant-table-row-selected";

/// The compilation report.
pub const COMPILATION: &'static str = "._compilation_1f8cm_53";

/// Extracts records from xinyoudui's problem pages.
#[derive(Clone, Copy, Debug)]
pub struct XinyouduiExtractor;

/// The editor lines up to `i`, each without trailing whitespace and followed by a newline.
pub open spec fn lines_upto(source: Seq<char>, lines: Seq<usize>, i: int) -> Seq<char>
    decreases i,
{
    if i <= 0 || i > lines.len() {
        Seq::empty()
    } else {
        lines_upto(source, lines, i - 1) + trim_end(element_text(source, lines[i - 1])) + seq!['\n']
    }
}

/// The code, rebuilt from the code editor's lines.
pub open spec fn code_of(source: Seq<char>) -> Seq<char> {
    let lines = all_in(source, None, ".cm-line"@);
    lines_upto(source, lines, lines.len() as int)
}

pub open spec fn tag_ref(source: Seq<char>, node: usize) -> Option<Seq<char>> {
    pattern_group(PROBLEM_PATTERN@, element_text(source, node), 1)
}

pub open spec fn tag_ref_in(source: Seq<char>) -> spec_fn(usize) -> Option<Seq<char>> {
    |n: usize| tag_ref(source, n)
}

/// The problem id: from the first tag labelled with it, else from the url.
pub open spec fn pid_of(url: Seq<char>, source: Seq<char>) -> Seq<char> {
    match first_some(all_in(source, None, ".ac-ant-tag"@), tag_ref_in(source), 0) {
        Some(p) => p,
        None => or_empty(pattern_group(RECORD_PATTERN@, url, 1)),
    }
}

/// The record id: the first cell of the selected row.
pub open spec fn rid_of(source: Seq<char>) -> Seq<char> {
    match first_in(source, None, SELECTED_ROW@) {
        Some(row) => or_empty(first_text_in(source, Some(row), "td"@)),
        None => Seq::empty(),
    }
}

/// The language: the second cell of the selected row, else C++17.
pub open spec fn language_of(source: Seq<char>) -> SubmissionLanguage {
    match first_in(source, None, SELECTED_ROW@) {
        Some(row) => {
            let cells = all_in(source, Some(row), "td"@);
            if cells.len() >= 2 {
                language_or_default(trim(element_text(source, cells[1])))
            } else {
                SubmissionLanguage::Cpp17
            }
        },
        None => SubmissionLanguage::Cpp17,
    }
}

/// The number in a group of a match, `0` when absent or too large.
pub open spec fn group_number(pattern: Seq<char>, t: Seq<char>, group: usize) -> i32 {
    match pattern_group(pattern, t, group) {
        Some(g) => or_zero(int_of(g)),
        None => 0,
    }
}

/// Verdict and score: the third and fourth cells of the selected row.
pub open spec fn status_and_score(source: Seq<char>) -> (SubmissionStatus, i32) {
    match first_in(source, None, SELECTED_ROW@) {
        Some(row) => {
            let cells = all_in(source, Some(row), "td"@);
            (
                if cells.len() >= 3 {
                    status_of(trim(element_text(source, cells[2])))
                } else {
                    SubmissionStatus::Unknown
                },
                if cells.len() >= 4 {
                    group_number(SCORE_PATTERN@, element_text(source, cells[3]), 1)
                } else {
                    0
                },
            )
        },
        None => (SubmissionStatus::Unknown, 0),
    }
}

/// Time and memory from the compilation report.
pub open spec fn usage_of(source: Seq<char>) -> (i32, i32) {
    match first_in(source, None, COMPILATION@) {
        Some(n) => {
            let t = element_text(source, n);
            (group_number(TIME_MEM_PATTERN@, t, 1), group_number(TIME_MEM_PATTERN@, t, 2))
        },
        None => (0, 0),
    }
}

/// The record assembled from a page, before its required fields are checked.
pub open spec fn record(url: Seq<char>, source: Seq<char>) -> SubmissionView {
    let judged = status_and_score(source);
    let usage = usage_of(source);
    SubmissionView {
        code: code_of(source),
        pid: pid_of(url, source),
        rid: rid_of(source),
        oj: "xyd"@,
        language: language_of(source),
        status: judged.0,
        total_time: usage.0,
        max_memory: usage.1,
        score: judged.1,
    }
}

fn group_number_of(pattern: &str, t: &Vec<char>, group: usize) -> (r: i32)
    ensures
        r == group_number(pattern@, t@, group),
{
    match capture(pattern, t, group) {
        Some(g) => match parse_int(&g) {
            Some(v) => v,
            None => 0,
        },
        None => 0,
    }
}

impl XinyouduiExtractor {
    fn extract_code(page: &Page) -> (r: Vec<char>)
        ensures
            r@ == code_of(page@),
    {
        let lines = all(page, None, ".cm-line");
        let mut code: Vec<char> = Vec::new();
        for i in 0..lines.len()
            invariant
                lines@ == all_in(page@, None, ".cm-line"@),
                code@ == lines_upto(page@, lines@, i as int),
        {
            let line = trimmed_end(&text(page, lines[i]));
            push_all(&mut code, &line);
            code.push('\n');
        }
        code
    }

    fn extract_pid_from_page(page: &Page) -> (r: Option<Vec<char>>)
        ensures
            r matches Some(p) ==> first_some(all_in(page@, None, ".ac-ant-tag"@), tag_ref_in(page@), 0)
                == Some(p@),
            r is None <==> first_some(all_in(page@, None, ".ac-ant-tag"@), tag_ref_in(page@), 0) is None,
    {
        let tags = all(page, None, ".ac-ant-tag");
        for i in 0..tags.len()
            invariant
                tags@ == all_in(page@, None, ".ac-ant-tag"@),
                first_some(tags@, tag_ref_in(page@), 0) == first_some(
                    tags@,
                    tag_ref_in(page@),
                    i as int,
                ),
        {
            if let Some(p) = capture(PROBLEM_PATTERN, &text(page, tags[i]), 1) {
                return Some(p);
            }
        }
        None
    }

    fn extract_pid(url: &str, page: &Page) -> (r: Vec<char>)
        ensures
            r@ == pid_of(url@, page@),
    {
        match XinyouduiExtractor::extract_pid_from_page(page) {
            Some(p) => p,
            None => text_or_empty(capture(RECORD_PATTERN, &chars_of(url), 1)),
        }
    }

    fn extract_rid(page: &Page) -> (r: Vec<char>)
        ensures
            r@ == rid_of(page@),
    {
        match first(page, None, SELECTED_ROW) {
            Some(row) => text_or_empty(first_text(page, Some(row), "td")),
            None => Vec::new(),
        }
    }

    fn extract_language(page: &Page) -> (r: SubmissionLanguage)
        ensures
            r == language_of(page@),
    {
        match first(page, None, SELECTED_ROW) {
            Some(row) => {
                let cells = all(page, Some(row), "td");
                if cells.len() >= 2 {
                    SubmissionLanguage::classify(string_of(&trimmed_text(page, cells[1])).as_str())
                } else {
                    SubmissionLanguage::Cpp17
                }
            },
            None => SubmissionLanguage::Cpp17,
        }
    }

    fn extract_status_and_score(page: &Page) -> (r: (SubmissionStatus, i32))
        ensures
            r == status_and_score(page@),
    {
        match first(page, None, SELECTED_ROW) {
            Some(row) => {
                let cells = all(page, Some(row), "td");
                let status = if cells.len() >= 3 {
                    SubmissionStatus::classify(string_of(&trimmed_text(page, cells[2])).as_str())
                } else {
                    SubmissionStatus::Unknown
                };
                let score = if cells.len() >= 4 {
                    group_number_of(SCORE_PATTERN, &text(page, cells[3]), 1)
                } else {
                    0
                };
                (status, score)
            },
            None => (SubmissionStatus::Unknown, 0),
        }
    }

    fn extract_time_and_memory(page: &Page) -> (r: (i32, i32))
        ensures
            r == usage_of(page@),
    {
        match first(page, None, COMPILATION) {
            Some(n) => {
                let t = text(page, n);
                (group_number_of(TIME_MEM_PATTERN, &t, 1), group_number_of(TIME_MEM_PATTERN, &t, 2))
            },
            None => (0, 0),
        }
    }

    fn extract_partial(&self, url: &str, content: &str) -> (r: Submission)
        ensures
            r@ == record(url@, content@),
    {
        let page = parse_page(content);
        let code = XinyouduiExtractor::extract_code(&page);
        let pid = XinyouduiExtractor::extract_pid(url, &page);
        let rid = XinyouduiExtractor::extract_rid(&page);
        let language = XinyouduiExtractor::extract_language(&page);
        let (status, score) = XinyouduiExtractor::extract_status_and_score(&page);
        let (total_time, max_memory) = XinyouduiExtractor::extract_time_and_memory(&page);
        Submission {
            code: string_of(&code),
            pid: string_of(&pid),
            rid: string_of(&rid),
            oj: "xyd".to_string(),
            language,
            status,
            total_time,
            max_memory,
            score,
        }
    }

    /// Extracts the record from a xinyoudui problem page: `EmptyContent` for blank markup, else
    /// the assembled record, checked for its required fields.
    pub fn extract(&self, url: &str, content: &str) -> (r: Result<Submission>)
        ensures
            blank(content@) ==> (r matches Err(Error::Extract(e)) && e.kind is EmptyContent
                && e.partial is None),
            !blank(content@) ==> validated(record(url@, content@), r),
    {
        if is_blank(content) {
            return Err(empty_content());
        }
        validate_submission(self.extract_partial(url, content))
    }
}

} // verus!
