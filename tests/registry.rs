use extractor::error::Error;
use extractor::factory::{rank, registry_items, ExtractorFactory, RegistryEntry, Site};
use extractor::{create_extractor, extract, Extractor};

fn chosen(url: &str) -> Option<String> {
    match create_extractor(url) {
        Ok((_, name)) => Some(name),
        Err(Error::NoExtractor(u)) => {
            assert_eq!(u, url);
            None
        }
        Err(other) => panic!("unexpected error {:?}", other),
    }
}

#[test]
fn urls_choose_their_site() {
    assert_eq!(chosen("https://www.luogu.com.cn/record/241494617").as_deref(), Some("luogu"));
    assert_eq!(chosen("https://WWW.LUOGU.COM.CN/record/1").as_deref(), Some("luogu"));
    assert_eq!(chosen("https://example.com/洛谷/1").as_deref(), Some("luogu"));
    assert_eq!(chosen("https://vjudge.net/solution/65377961").as_deref(), Some("vj"));
    assert_eq!(chosen("https://example.com/virtual judge").as_deref(), Some("vj"));
    assert_eq!(
        chosen("https://www.xinyoudui.com/ac/contest/74700B6AA0008E906FED34/problem/15569").as_deref(),
        Some("xyd")
    );
    assert_eq!(chosen("https://example.com/"), None);
    assert_eq!(chosen(""), None);
}

#[test]
fn ranks_add_up() {
    let items = registry_items();
    assert_eq!(items.len(), 3);
    assert_eq!(rank(&items[0], "https://www.luogu.com.cn/"), 20);
    assert_eq!(rank(&items[0], "https://www.luogu.com.cn/洛谷"), 30);
    assert_eq!(rank(&items[1], "https://vjudge.net/"), 30);
    assert_eq!(rank(&items[1], "https://vjudge.net/virtual judge"), 40);
    assert_eq!(rank(&items[2], "https://www.xinyoudui.com/"), 10);
    assert_eq!(rank(&items[2], "https://www.luogu.com.cn/"), 0);
    let mut more = items[2].clone();
    more.tags.push("xinyou".to_string());
    assert_eq!(rank(&more, "https://www.xinyoudui.com/"), 20);
    more.tags.push("absent".to_string());
    assert_eq!(rank(&more, "https://www.xinyoudui.com/"), 20);
}

#[test]
fn highest_rank_wins_and_ties_go_to_the_first() {
    let factory = ExtractorFactory::new();
    let (_, name) = factory.create_extractor("https://vjudge.net/luogu").unwrap();
    assert_eq!(name, "vj");
    let (_, name) = factory.create_extractor("https://luogu.com.cn/vj").unwrap();
    assert_eq!(name, "luogu");
    let (_, name) = factory.create_extractor("xinyoudui 洛谷").unwrap();
    assert_eq!(name, "luogu");
    let entry = RegistryEntry { name: "x".to_string(), tags: Vec::new(), site: Site::Luogu };
    assert_eq!(rank(&entry, "abc"), 0);
}

#[test]
fn facade_reports_no_extractor() {
    match extract("https://example.com/", "<p>x</p>") {
        Err(Error::NoExtractor(u)) => assert_eq!(u, "https://example.com/"),
        other => panic!("expected no extractor, got {:?}", other),
    }
}

#[test]
fn chosen_extractor_extracts() {
    let (e, name) = create_extractor("https://www.luogu.com.cn/record/5").unwrap();
    assert_eq!(name, "luogu");
    let page = "<a href=\"/problem/P1001\">A+B</a><pre><code class=\"language-cpp\">int main(){}</code></pre>";
    let s = e.extract("https://www.luogu.com.cn/record/5", page).unwrap();
    assert_eq!(s.pid, "P1001");
    assert_eq!(s.rid, "5");
    assert_eq!(s.code, "int main(){}");
    assert_eq!(s.total_time, 0);
    assert_eq!(s.score, 0);
}
