//! Records of vjudge.net, the virtual judge.

use vstd::prelude::*;

use crate::error::{blank, empty_content, is_blank, validate_submission, validated, Error, Result};
use crate::fields::{
    all, all_in, first, first_in, first_some, first_text, first_text_in, or_empty, or_zero,
    row_cells, row_cells_of, text_or_empty,
};
use crate::markup::{attr, capture, element_attr, parse_page, pattern_group, Page};
use crate::models::{
    language_or_default, status_of, Submission, SubmissionLanguage, SubmissionStatus,
    SubmissionView,
};
use crate::text::{
    all_digits, begins, chars_of, contains, includes, only_digits, starts_with, string_of, suffix,
};
use crate::utils::{memory_kb, parse_mem_to_kb, parse_time_to_ms, time_ms};

verus! {

/// A solution url.
pub const RECORD_PATTERN: &'static str = r"https://vjudge\.net/solution/(\d+)";

/// A problem link's path.
pub const PROBLEM_PATTERN: &'static str = r"/problem/([^/]+)";

/// The rows of the information panel.
pub const INFO_ROWS: &'static str = "#info-panel table tbody tr";

/// Extracts records from vjudge's solution pages.
#[derive(Clone, Copy, Debug)]
pub struct VjudgeExtractor;

/// The code: the first `pre code` element, else the first `pre` element, trimmed.
pub open spec fn code_of(source: Seq<char>) -> Seq<char> {
    match first_text_in(source, None, "pre code"@) {
        Some(t) => t,
        None => or_empty(first_text_in(source, None, "pre"@)),
    }
}

/// The problem id that a link of the dialog title names.
pub open spec fn problem_ref(source: Seq<char>, node: usize) -> Option<Seq<char>> {
    match element_attr(source, node, "href"@) {
        Some(h) => if contains(h, "/problem/"@) {
            pattern_group(PROBLEM_PATTERN@, h, 1)
        } else {
            None
        },
        None => None,
    }
}

pub open spec fn problem_ref_in(source: Seq<char>) -> spec_fn(usize) -> Option<Seq<char>> {
    |n: usize| problem_ref(source, n)
}

pub open spec fn pid_of(source: Seq<char>) -> Seq<char> {
    or_empty(first_some(all_in(source, None, ".modal-title a"@), problem_ref_in(source), 0))
}

/// The record id that a solution link names: from a full solution url, else what follows
/// `/solution/`.
pub open spec fn solution_ref(source: Seq<char>, node: usize) -> Option<Seq<char>> {
    match element_attr(source, node, "href"@) {
        Some(h) => match pattern_group(RECORD_PATTERN@, h, 1) {
            Some(g) => Some(g),
            None => if starts_with(h, "/solution/"@) {
                Some(h.skip(10))
            } else {
                None
            },
        },
        None => None,
    }
}

pub open spec fn solution_ref_in(source: Seq<char>) -> spec_fn(usize) -> Option<Seq<char>> {
    |n: usize| solution_ref(source, n)
}

/// A row id made of digits alone.
pub open spec fn numeric_id(source: Seq<char>, node: usize) -> Option<Seq<char>> {
    match element_attr(source, node, "id"@) {
        Some(id) => if all_digits(id) {
            Some(id)
        } else {
            None
        },
        None => None,
    }
}

pub open spec fn numeric_id_in(source: Seq<char>) -> spec_fn(usize) -> Option<Seq<char>> {
    |n: usize| numeric_id(source, n)
}

/// The record id: from the url, else from a solution link of the dialog title, else from the
/// first table row whose id is numeric.
pub open spec fn rid_of(url: Seq<char>, source: Seq<char>) -> Seq<char> {
    match pattern_group(RECORD_PATTERN@, url, 1) {
        Some(g) => g,
        None => match first_some(
            all_in(source, None, ".modal-title a[href^='/solution/']"@),
            solution_ref_in(source),
            0,
        ) {
            Some(g) => g,
            None => or_empty(first_some(all_in(source, None, "tr[id]"@), numeric_id_in(source), 0)),
        },
    }
}

/// The language of an information row headed by a language label.
pub open spec fn language_row(source: Seq<char>, row: usize) -> Option<SubmissionLanguage> {
    match row_cells(source, row) {
        Some((h, v)) => if contains(h, "语言"@) {
            Some(language_or_default(v))
        } else {
            None
        },
        None => None,
    }
}

pub open spec fn language_row_in(source: Seq<char>) -> spec_fn(usize) -> Option<SubmissionLanguage> {
    |n: usize| language_row(source, n)
}

/// The language: from the information panel, else from the language column's tooltip, else
/// C++17.
pub open spec fn language_of(source: Seq<char>) -> SubmissionLanguage {
    match first_some(all_in(source, None, INFO_ROWS@), language_row_in(source), 0) {
        Some(l) => l,
        None => match first_in(source, None, ".language div[data-original-title]"@) {
            Some(n) => match element_attr(source, n, "data-original-title"@) {
                Some(t) => language_or_default(t),
                None => SubmissionLanguage::Cpp17,
            },
            None => SubmissionLanguage::Cpp17,
        },
    }
}

/// The verdict of an information row headed by a verdict label.
pub open spec fn status_row(source: Seq<char>, row: usize) -> Option<SubmissionStatus> {
    match row_cells(source, row) {
        Some((h, v)) => if contains(h, "评测结果"@) {
            Some(status_of(v))
        } else {
            None
        },
        None => None,
    }
}

pub open spec fn status_row_in(source: Seq<char>) -> spec_fn(usize) -> Option<SubmissionStatus> {
    |n: usize| status_row(source, n)
}

/// The verdict shown by the status cell, or failing that by the information panel's verdict
/// row; `Unknown` when neither is there.
pub open spec fn status_from(source: Seq<char>) -> SubmissionStatus {
    match first_text_in(source, None, ".status .view-solution"@) {
        Some(t) => status_of(t),
        None => match first_some(all_in(source, None, INFO_ROWS@), status_row_in(source), 0) {
            Some(s) => s,
            None => SubmissionStatus::Unknown,
        },
    }
}

/// (time, memory) after the information rows up to `i`, starting from `start`.
pub open spec fn usage_upto(source: Seq<char>, rows: Seq<usize>, start: (i32, i32), i: int) -> (
    i32,
    i32,
)
    decreases i,
{
    if i <= 0 || i > rows.len() {
        start
    } else {
        let before = usage_upto(source, rows, start, i - 1);
        match row_cells(source, rows[i - 1]) {
            Some((h, v)) => if contains(h, "耗时"@) {
                (
                    match time_ms(v) {
                        Some(t) => t,
                        None => before.0,
                    },
                    before.1,
                )
            } else if contains(h, "内存消耗"@) {
                (
                    before.0,
                    match memory_kb(v) {
                        Some(m) => m,
                        None => before.1,
                    },
                )
            } else {
                before
            },
            None => before,
        }
    }
}

/// Time and memory: from the table's runtime and memory cells; where either is zero, the
/// information panel's rows may set them.
pub open spec fn usage_of(source: Seq<char>) -> (i32, i32) {
    let time = match first_text_in(source, None, ".runtime"@) {
        Some(t) => or_zero(time_ms(t)),
        None => 0,
    };
    let memory = match first_text_in(source, None, ".memory"@) {
        Some(t) => or_zero(memory_kb(t)),
        None => 0,
    };
    if time == 0 || memory == 0 {
        let rows = all_in(source, None, INFO_ROWS@);
        usage_upto(source, rows, (time, memory), rows.len() as int)
    } else {
        (time, memory)
    }
}

/// The score that a verdict implies: 100 for accepted, 50 for partially correct, else 0.
pub open spec fn score_for(status: SubmissionStatus) -> i32 {
    match status {
        SubmissionStatus::Accepted => 100,
        SubmissionStatus::PartiallyCorrect => 50,
        _ => 0,
    }
}

/// The judge that the record was run on, else `vj`.
pub open spec fn oj_of(source: Seq<char>) -> Seq<char> {
    match first_text_in(source, None, ".oj"@) {
        Some(t) => t,
        None => "vj"@,
    }
}

/// The record assembled from a page, before its required fields are checked.
pub open spec fn record(url: Seq<char>, source: Seq<char>) -> SubmissionView {
    let status = status_from(source);
    let usage = usage_of(source);
    SubmissionView {
        code: code_of(source),
        pid: pid_of(source),
        rid: rid_of(url, source),
        oj: oj_of(source),
        language: language_of(source),
        status,
        total_time: usage.0,
        max_memory: usage.1,
        score: score_for(status),
    }
}

impl VjudgeExtractor {
    fn extract_code(page: &Page) -> (r: Vec<char>)
        ensures
            r@ == code_of(page@),
    {
        match first_text(page, None, "pre code") {
            Some(t) => t,
            None => text_or_empty(first_text(page, None, "pre")),
        }
    }

    fn extract_pid(page: &Page) -> (r: Vec<char>)
        ensures
            r@ == pid_of(page@),
    {
        let links = all(page, None, ".modal-title a");
        for i in 0..links.len()
            invariant
                links@ == all_in(page@, None, ".modal-title a"@),
                first_some(links@, problem_ref_in(page@), 0) == first_some(
                    links@,
                    problem_ref_in(page@),
                    i as int,
                ),
        {
            if let Some(href) = attr(page, links[i], "href") {
                if includes(&href, &chars_of("/problem/")) {
                    if let Some(p) = capture(PROBLEM_PATTERN, &href, 1) {
                        return p;
                    }
                }
            }
        }
        Vec::new()
    }

    fn extract_rid(url: &str, page: &Page) -> (r: Vec<char>)
        ensures
            r@ == rid_of(url@, page@),
    {
        if let Some(g) = capture(RECORD_PATTERN, &chars_of(url), 1) {
            return g;
        }
        let links = all(page, None, ".modal-title a[href^='/solution/']");
        for i in 0..links.len()
            invariant
                pattern_group(RECORD_PATTERN@, url@, 1) is None,
                links@ == all_in(page@, None, ".modal-title a[href^='/solution/']"@),
                first_some(links@, solution_ref_in(page@), 0) == first_some(
                    links@,
                    solution_ref_in(page@),
                    i as int,
                ),
        {
            if let Some(href) = attr(page, links[i], "href") {
                if let Some(g) = capture(RECORD_PATTERN, &href, 1) {
                    return g;
                }
                proof {
                    reveal_strlit("/solution/");
                }
                if begins(&href, &chars_of("/solution/")) {
                    return suffix(&href, 10);
                }
            }
        }
        let rows = all(page, None, "tr[id]");
        for i in 0..rows.len()
            invariant
                pattern_group(RECORD_PATTERN@, url@, 1) is None,
                first_some(links@, solution_ref_in(page@), 0) is None,
                links@ == all_in(page@, None, ".modal-title a[href^='/solution/']"@),
                rows@ == all_in(page@, None, "tr[id]"@),
                first_some(rows@, numeric_id_in(page@), 0) == first_some(
                    rows@,
                    numeric_id_in(page@),
                    i as int,
                ),
        {
            if let Some(id) = attr(page, rows[i], "id") {
                if only_digits(&id) {
                    return id;
                }
            }
        }
        Vec::new()
    }

    fn extract_language(page: &Page) -> (r: SubmissionLanguage)
        ensures
            r == language_of(page@),
    {
        let rows = all(page, None, INFO_ROWS);
        for i in 0..rows.len()
            invariant
                rows@ == all_in(page@, None, INFO_ROWS@),
                first_some(rows@, language_row_in(page@), 0) == first_some(
                    rows@,
                    language_row_in(page@),
                    i as int,
                ),
        {
            if let Some((h, v)) = row_cells_of(page, rows[i]) {
                if includes(&h, &chars_of("语言")) {
                    return SubmissionLanguage::classify(string_of(&v).as_str());
                }
            }
        }
        if let Some(n) = first(page, None, ".language div[data-original-title]") {
            if let Some(t) = attr(page, n, "data-original-title") {
                return SubmissionLanguage::classify(string_of(&t).as_str());
            }
        }
        SubmissionLanguage::Cpp17
    }

    fn extract_status(page: &Page) -> (r: SubmissionStatus)
        ensures
            r == status_from(page@),
    {
        if let Some(t) = first_text(page, None, ".status .view-solution") {
            return SubmissionStatus::classify(string_of(&t).as_str());
        }
        let rows = all(page, None, INFO_ROWS);
        for i in 0..rows.len()
            invariant
                rows@ == all_in(page@, None, INFO_ROWS@),
                first_text_in(page@, None, ".status .view-solution"@) is None,
                first_some(rows@, status_row_in(page@), 0) == first_some(
                    rows@,
                    status_row_in(page@),
                    i as int,
                ),
        {
            if let Some((h, v)) = row_cells_of(page, rows[i]) {
                if includes(&h, &chars_of("评测结果")) {
                    return SubmissionStatus::classify(string_of(&v).as_str());
                }
            }
        }
        SubmissionStatus::Unknown
    }

    fn extract_time_and_memory(page: &Page) -> (r: (i32, i32))
        ensures
            r == usage_of(page@),
    {
        let mut total_time: i32 = match first_text(page, None, ".runtime") {
            Some(t) => match parse_time_to_ms(string_of(&t).as_str()) {
                Some(v) => v,
                None => 0,
            },
            None => 0,
        };
        let mut max_memory: i32 = match first_text(page, None, ".memory") {
            Some(t) => match parse_mem_to_kb(string_of(&t).as_str()) {
                Some(v) => v,
                None => 0,
            },
            None => 0,
        };
        if total_time != 0 && max_memory != 0 {
            return (total_time, max_memory);
        }
        let ghost start = (total_time, max_memory);
        let rows = all(page, None, INFO_ROWS);
        for i in 0..rows.len()
            invariant
                rows@ == all_in(page@, None, INFO_ROWS@),
                (total_time, max_memory) == usage_upto(page@, rows@, start, i as int),
        {
            if let Some((h, v)) = row_cells_of(page, rows[i]) {
                let value = string_of(&v);
                if includes(&h, &chars_of("耗时")) {
                    if let Some(t) = parse_time_to_ms(value.as_str()) {
                        total_time = t;
                    }
                } else if includes(&h, &chars_of("内存消耗")) {
                    if let Some(m) = parse_mem_to_kb(value.as_str()) {
                        max_memory = m;
                    }
                }
            }
        }
        (total_time, max_memory)
    }

    /// The score that a verdict implies: 100 for accepted, 50 for partially correct, else 0.
    pub fn extract_score(status: &SubmissionStatus) -> (r: i32)
        ensures
            r == score_for(*status),
    {
        match status {
            SubmissionStatus::Accepted => 100,
            SubmissionStatus::PartiallyCorrect => 50,
            _ => 0,
        }
    }

    fn extract_oj(page: &Page) -> (r: Vec<char>)
        ensures
            r@ == oj_of(page@),
    {
        match first_text(page, None, ".oj") {
            Some(t) => t,
            None => chars_of("vj"),
        }
    }

    fn extract_partial(&self, url: &str, content: &str) -> (r: Submission)
        ensures
            r@ == record(url@, content@),
    {
        let page = parse_page(content);
        let code = VjudgeExtractor::extract_code(&page);
        let pid = VjudgeExtractor::extract_pid(&page);
        let rid = VjudgeExtractor::extract_rid(url, &page);
        let language = VjudgeExtractor::extract_language(&page);
        let status = VjudgeExtractor::extract_status(&page);
        let (total_time, max_memory) = VjudgeExtractor::extract_time_and_memory(&page);
        let score = VjudgeExtractor::extract_score(&status);
        let oj = VjudgeExtractor::extract_oj(&page);
        Submission {
            code: string_of(&code),
            pid: string_of(&pid),
            rid: string_of(&rid),
            oj: string_of(&oj),
            language,
            status,
            total_time,
            max_memory,
            score,
        }
    }

    /// Extracts the record from a vjudge solution page: `EmptyContent` for blank markup, else
    /// the assembled record, checked for its required fields.
    pub fn extract(&self, url: &str, content: &str) -> (r: Result<Submission>)
        ensures
            blank(content@) ==> (r matches Err(Error::Extract(e)) && e.kind is EmptyContent
                && e.partial is None),
            !blank(content@) ==> validated(record(url@, content@), r),
    {
        if is_blank(content) {
            return Err(empty_content());
        }
        validate_submission(self.extract_partial(url, content))
    }
}

} // verus!
