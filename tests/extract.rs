use extractor::error::{Error, ExtractErrorKind, Result};
use extractor::extractors::luogu::LuoguExtractor;
use extractor::extractors::vjudge::VjudgeExtractor;
use extractor::extractors::xyd::XinyouduiExtractor;
use extractor::models::{SubmissionLanguage, SubmissionStatus};
use extractor::utils::{parse_mem_to_kb, parse_time_to_ms};

fn luogu_page() -> &'static str {
    r#"
        <!DOCTYPE html>
        <html>
        <body>
            <div class="stat color-inverse">
                <div class="field">
                    <span class="key">编程语言</span>
                    <span class="value">C++17 O2</span>
                </div>
                <div class="field">
                    <span class="key">用时</span>
                    <span class="value">2.33s</span>
                </div>
                <div class="field">
                    <span class="key">内存</span>
                    <span class="value">1.55MB</span>
                </div>
            </div>

            <div class="info-rows">
                <div>
                    <span>评测状态</span>
                    <span style="color: rgb(82, 196, 26);">Accepted</span>
                </div>
                <div>
                    <span>评测分数</span>
                    <span style="font-weight: bold; color: rgb(82, 196, 26);">100</span>
                </div>
            </div>

            <a href="/problem/P4198">P4198 楼房重建</a>

            <pre><code class="language-cpp">
                #include &lt;bits/stdc++.h&gt;
                using u32 = uint32_t; using u64 = uint64_t;
                constexpr u32 N = 1e5 + 10, M = 320;
                template &lt;typename T&gt;
                void read(T&amp; v) {
                    v = 0; char ch;
                    while (!isdigit(ch = getchar()));
                    do { v = (v &lt;&lt; 1) + (v &lt;&lt; 3) + (ch ^ '0'); } while (isdigit(ch = getchar()));
                }

                struct Block {
                    u32 max;
                    std::vector&lt;u32&gt; cnt;
                };

                u32 n, b, cnt, h[N];
                Block par[M];

                auto main() -&gt; int {
                    u32 m, u, v, cnt = 0;
                    read(n), read(m), b = sqrt(n);
                    while (m--) {
                        read(u), read(v);
                        printf("%u\n", modify(u, v) ? cnt = count() : cnt);
                    }
                }
            </code></pre>
        </body>
        </html>"#
}

fn vjudge_page() -> &'static str {
    r#"
        <div class="modal-content">
            <div class="modal-header">
                <h5 class="modal-title">
                    <a href="/solution/65377961">#65377961</a>
                    <a href="/problem/UESTC-126">[UESTC-126]</a>
                </h5>
            </div>
            <div class="modal-body">
                <div id="info-panel">
                    <table>
                        <tbody>
                            <tr>
                                <th>评测结果</th>
                                <td class="status">Accepted</td>
                            </tr>
                            <tr>
                                <th>耗时</th>
                                <td class="time">1886ms</td>
                            </tr>
                            <tr>
                                <th>内存消耗</th>
                                <td class="memory">10752kB</td>
                            </tr>
                            <tr>
                                <th>语言</th>
                                <td class="lang">C++17 (O2)</td>
                            </tr>
                        </tbody>
                    </table>
                </div>
                <div id="code-panel">
                    <pre>
                        <code>
                        #include &lt;bits/stdc++.h&gt;
                        auto main() -> int { return 0; }
                        </code>
                    </pre>
                </div>
            </div>
        </div>
        <table>
            <tbody>
                <tr>
                    <td class="oj">UESTC</td>
                    <td class="status">Accepted</td>
                    <td class="runtime">1886</td>
                    <td class="memory">10.8</td>
                </tr>
            </tbody>
        </table>
    "#
}

fn xyd_page() -> &'static str {
    r#"
        <div id="rc-tabs-0-panel-submissions">
            <div class="_overview_10upj_43">
                <div class="_top_10upj_56">
                    <div class="_left_10upj_61">
                        <div class="_tags_10upj_68 print-hide">
                            <span class="ac-ant-tag css-oxq8ps">题目ID：23051</span>
                            <span class="ac-ant-tag ac-ant-tag-blue css-oxq8ps">必做题</span>
                        </div>
                    </div>
                </div>
            </div>
            <table>
                <tbody>
                    <tr class="ac-ant-table-row ac-ant-table-row-selected">
                        <td>2542938</td>
                        <td>C++17</td>
                        <td>Accepted</td>
                        <td><strong>100 分</strong></td>
                    </tr>
                </tbody>
            </table>
            <div class="_codingArea_hyhtw_77">
                <div class="cm-theme-light _codeMirror_hyhtw_81 x-star-design-codeMirror">
                    <div class="cm-content">
                        <div class="cm-line">#include &lt;bits/stdc++.h&gt;</div>
                        <div class="cm-line">using namespace std;</div>
                        <div class="cm-line">int main() {</div>
                        <div class="cm-line">    return 0;</div>
                        <div class="cm-line">}</div>
                    </div>
                </div>
            </div>
            <div class="_compilation_1f8cm_53">
                time: 350ms, memory: 141628kb, score: 100, status: Accepted
            </div>
        </div>
        "#
}

#[test]
fn luogu_test_extract() -> Result<()> {
    let url = "https://www.luogu.com.cn/record/241494617";
    let content = luogu_page();

    let submission = LuoguExtractor {}.extract(url, content)?;

    assert_eq!(submission.pid, "P4198".to_string());
    assert_eq!(submission.rid, "241494617".to_string());
    assert_eq!(submission.language, SubmissionLanguage::Cpp17);
    assert_eq!(submission.status, SubmissionStatus::Accepted);
    assert_eq!(submission.max_memory, parse_mem_to_kb("1.55MB").unwrap());
    assert_eq!(submission.total_time, parse_time_to_ms("2.33s").unwrap());

    Ok(())
}

#[test]
fn vjudge_test_extract() -> Result<()> {
    let url = "https://vjudge.net/solution/65377961";
    let content = vjudge_page();

    let extractor = VjudgeExtractor;
    let submission = extractor.extract(url, content)?;

    assert_eq!(submission.pid, "UESTC-126");
    assert_eq!(submission.rid, "65377961");
    assert_eq!(submission.oj, "UESTC");
    assert_eq!(submission.language, SubmissionLanguage::Cpp17);
    assert_eq!(submission.status, SubmissionStatus::Accepted);
    assert_eq!(submission.total_time, 1886);
    assert_eq!(submission.max_memory, 10752);
    assert_eq!(submission.score, 100);

    Ok(())
}

#[test]
fn test_extractor() -> Result<()> {
    let url = "https://www.xinyoudui.com/ac/contest/74700B6AA0008E906FED34/problem/15569";
    let content = xyd_page();

    let extractor = XinyouduiExtractor;
    let submission = extractor.extract(url, content)?;

    assert_eq!(submission.pid, "23051");
    assert_eq!(submission.rid, "2542938");
    assert_eq!(submission.language, SubmissionLanguage::Cpp17);
    assert_eq!(submission.status, SubmissionStatus::Accepted);
    assert_eq!(submission.score, 100);
    assert_eq!(submission.total_time, 350);
    assert_eq!(submission.max_memory, 141628);

    Ok(())
}

#[test]
fn luogu_fixture_exact_values() {
    let s = LuoguExtractor {}
        .extract("https://www.luogu.com.cn/record/241494617", luogu_page())
        .unwrap();
    assert_eq!(s.total_time, 2330);
    assert_eq!(s.max_memory, 1587);
    assert_eq!(s.score, 100);
    assert_eq!(s.oj, "luogu");
    assert!(s.code.starts_with("#include <bits/stdc++.h>"));
    assert!(s.code.ends_with('}'));
}

#[test]
fn vjudge_fixture_code_and_oj() {
    let s = VjudgeExtractor
        .extract("https://vjudge.net/solution/65377961", vjudge_page())
        .unwrap();
    assert!(s.code.starts_with("#include <bits/stdc++.h>"));
    assert!(s.code.ends_with("auto main() -> int { return 0; }"));
}

#[test]
fn xyd_code_rebuilt_from_lines() {
    let url = "https://www.xinyoudui.com/ac/contest/74700B6AA0008E906FED34/problem/15569";
    let s = XinyouduiExtractor.extract(url, xyd_page()).unwrap();
    assert_eq!(
        s.code,
        "#include <bits/stdc++.h>\nusing namespace std;\nint main() {\n    return 0;\n}\n"
    );
    assert_eq!(s.oj, "xyd");
}

#[test]
fn xyd_pid_falls_back_to_url() {
    let url = "https://www.xinyoudui.com/ac/contest/74700B6AA0008E906FED34/problem/15569";
    let page = xyd_page().replace("题目ID：23051", "必做题");
    let s = XinyouduiExtractor.extract(url, &page).unwrap();
    assert_eq!(s.pid, "15569");
}

#[test]
fn luogu_without_problem_link_reports_pid() {
    let page = luogu_page().replace("<a href=\"/problem/P4198\">P4198 楼房重建</a>", "");
    let r = LuoguExtractor {}.extract("https://www.luogu.com.cn/record/241494617", &page);
    match r {
        Err(Error::Extract(e)) => {
            assert!(matches!(&e.kind, ExtractErrorKind::MissingField(f) if f == "pid"));
            let partial = e.partial.expect("partial record");
            assert_eq!(partial.pid, "");
            assert_eq!(partial.rid, "241494617");
            assert_eq!(partial.language, SubmissionLanguage::Cpp17);
            assert_eq!(partial.status, SubmissionStatus::Accepted);
            assert_eq!(partial.total_time, 2330);
            assert_eq!(partial.max_memory, 1587);
            assert_eq!(partial.score, 100);
            assert!(!partial.code.is_empty());
        }
        other => panic!("expected a missing pid, got {:?}", other),
    }
}

#[test]
fn pid_is_reported_before_rid() {
    let page = luogu_page().replace("<a href=\"/problem/P4198\">P4198 楼房重建</a>", "");
    let r = LuoguExtractor {}.extract("https://www.luogu.com.cn/", &page);
    match r {
        Err(Error::Extract(e)) => {
            assert!(matches!(&e.kind, ExtractErrorKind::MissingField(f) if f == "pid"));
            assert_eq!(e.partial.unwrap().rid, "");
        }
        other => panic!("expected a missing pid, got {:?}", other),
    }
}

#[test]
fn missing_rid_is_reported() {
    let r = LuoguExtractor {}.extract("https://www.luogu.com.cn/", luogu_page());
    match r {
        Err(Error::Extract(e)) => {
            assert!(matches!(&e.kind, ExtractErrorKind::MissingField(f) if f == "rid"));
            assert_eq!(e.partial.unwrap().pid, "P4198");
        }
        other => panic!("expected a missing rid, got {:?}", other),
    }
}

#[test]
fn missing_code_is_reported() {
    let url = "https://www.xinyoudui.com/ac/contest/74700B6AA0008E906FED34/problem/15569";
    let page = xyd_page().replace("cm-line", "plain-line");
    match XinyouduiExtractor.extract(url, &page) {
        Err(Error::Extract(e)) => {
            assert!(matches!(&e.kind, ExtractErrorKind::MissingField(f) if f == "code"));
            assert_eq!(e.partial.unwrap().rid, "2542938");
        }
        other => panic!("expected missing code, got {:?}", other),
    }
}

#[test]
fn blank_markup_is_empty_content() {
    for r in [
        LuoguExtractor {}.extract("https://www.luogu.com.cn/record/1", "  \n\t "),
        VjudgeExtractor.extract("https://vjudge.net/solution/1", ""),
        XinyouduiExtractor.extract("https://www.xinyoudui.com/", " "),
    ] {
        match r {
            Err(Error::Extract(e)) => {
                assert!(matches!(e.kind, ExtractErrorKind::EmptyContent));
                assert!(e.partial.is_none());
            }
            other => panic!("expected empty content, got {:?}", other),
        }
    }
}

#[test]
fn extraction_is_repeatable() {
    let url = "https://vjudge.net/solution/65377961";
    let a = VjudgeExtractor.extract(url, vjudge_page()).unwrap();
    let b = VjudgeExtractor.extract(url, vjudge_page()).unwrap();
    assert_eq!(a, b);
    let c = extractor::extract(url, vjudge_page()).unwrap();
    let d = extractor::extract(url, vjudge_page()).unwrap();
    assert_eq!(c, d);
    assert_eq!(a, c);
}

#[test]
fn vjudge_status_and_time_from_info_panel() {
    let page = r#"
        <h5 class="modal-title"><a href="/problem/CodeForces-1A">CF</a></h5>
        <div id="info-panel"><table><tbody>
            <tr><th>评测结果</th><td>Wrong Answer</td></tr>
            <tr><th>耗时</th><td>15ms</td></tr>
            <tr><th>内存消耗</th><td>2MB</td></tr>
            <tr><th>语言</th><td>C++14</td></tr>
        </tbody></table></div>
        <pre>int main() {}</pre>
        <table><tbody><tr id="777"><td>x</td></tr></tbody></table>
    "#;
    let s = VjudgeExtractor.extract("https://vjudge.net/status", page).unwrap();
    assert_eq!(s.pid, "CodeForces-1A");
    assert_eq!(s.rid, "777");
    assert_eq!(s.oj, "vj");
    assert_eq!(s.status, SubmissionStatus::WrongAnswer);
    assert_eq!(s.score, 0);
    assert_eq!(s.total_time, 15);
    assert_eq!(s.max_memory, 2048);
    assert_eq!(s.language, SubmissionLanguage::Cpp14);
    assert_eq!(s.code, "int main() {}");
}

#[test]
fn vjudge_rid_from_solution_link() {
    let page = r#"
        <h5 class="modal-title"><a href="/solution/4242">#4242</a><a href="/problem/HDU-1000">p</a></h5>
        <pre><code>x</code></pre>
    "#;
    let s = VjudgeExtractor.extract("https://vjudge.net/status", page).unwrap();
    assert_eq!(s.rid, "4242");
    assert_eq!(s.pid, "HDU-1000");
    assert_eq!(s.language, SubmissionLanguage::Cpp17);
    assert_eq!(s.status, SubmissionStatus::Unknown);
}
