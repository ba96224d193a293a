//! The registry of site extractors and the choice of one by url.

use vstd::prelude::*;

use crate::error::{blank, validated, Error, Result};
use crate::extractors::luogu::{self, LuoguExtractor};
use crate::extractors::vjudge::{self, VjudgeExtractor};
use crate::extractors::xyd::{self, XinyouduiExtractor};
use crate::models::{Submission, SubmissionView};
use crate::text::{chars_of, contains, fold, fold_chars, includes};
use crate::traits::Extractor;

verus! {

impl Extractor for LuoguExtractor {
    open spec fn record(&self, url: Seq<char>, content: Seq<char>) -> SubmissionView {
        luogu::record(url, content)
    }

    fn extract(&self, url: &str, content: &str) -> (r: Result<Submission>) {
        LuoguExtractor::extract(self, url, content)
    }
}

impl Extractor for VjudgeExtractor {
    open spec fn record(&self, url: Seq<char>, content: Seq<char>) -> SubmissionView {
        vjudge::record(url, content)
    }

    fn extract(&self, url: &str, content: &str) -> (r: Result<Submission>) {
        VjudgeExtractor::extract(self, url, content)
    }
}

impl Extractor for XinyouduiExtractor {
    open spec fn record(&self, url: Seq<char>, content: Seq<char>) -> SubmissionView {
        xyd::record(url, content)
    }

    fn extract(&self, url: &str, content: &str) -> (r: Result<Submission>) {
        XinyouduiExtractor::extract(self, url, content)
    }
}

/// The supported sites.
#[derive(Clone, Copy, Debug, PartialEq, Eq, Structural)]
pub enum Site {
    Luogu,
    Vjudge,
    Xinyoudui,
}

/// One extractor of each supported site.
#[derive(Clone, Copy, Debug)]
pub enum SiteExtractor {
    Luogu(LuoguExtractor),
    Vjudge(VjudgeExtractor),
    Xinyoudui(XinyouduiExtractor),
}

impl SiteExtractor {
    pub open spec fn site(&self) -> Site {
        match self {
            SiteExtractor::Luogu(_) => Site::Luogu,
            SiteExtractor::Vjudge(_) => Site::Vjudge,
            SiteExtractor::Xinyoudui(_) => Site::Xinyoudui,
        }
    }

    /// A fresh extractor for a site.
    pub fn of(site: Site) -> (r: SiteExtractor)
        ensures
            r.site() == site,
    {
        match site {
            Site::Luogu => SiteExtractor::Luogu(LuoguExtractor {  }),
            Site::Vjudge => SiteExtractor::Vjudge(VjudgeExtractor),
            Site::Xinyoudui => SiteExtractor::Xinyoudui(XinyouduiExtractor),
        }
    }
}

/// The record that the extractor of a site assembles from a page.
pub open spec fn site_record(site: Site, url: Seq<char>, content: Seq<char>) -> SubmissionView {
    match site {
        Site::Luogu => luogu::record(url, content),
        Site::Vjudge => vjudge::record(url, content),
        Site::Xinyoudui => xyd::record(url, content),
    }
}

impl Extractor for SiteExtractor {
    open spec fn record(&self, url: Seq<char>, content: Seq<char>) -> SubmissionView {
        site_record(self.site(), url, content)
    }

    fn extract(&self, url: &str, content: &str) -> (r: Result<Submission>) {
        match self {
            SiteExtractor::Luogu(e) => e.extract(url, content),
            SiteExtractor::Vjudge(e) => e.extract(url, content),
            SiteExtractor::Xinyoudui(e) => e.extract(url, content),
        }
    }
}

/// A registered extractor: its display name, the tags that also identify its site, and the site.
#[derive(Clone, Debug)]
pub struct RegistryEntry {
    pub name: String,
    pub tags: Vec<String>,
    pub site: Site,
}

/// A registry entry as values.
pub struct EntryView {
    pub name: Seq<char>,
    pub tags: Seq<Seq<char>>,
    pub site: Site,
}

impl View for RegistryEntry {
    type V = EntryView;

    open spec fn view(&self) -> EntryView {
        EntryView { name: self.name@, tags: self.tags@.map_values(|t: String| t@), site: self.site }
    }
}

/// Ten points for each of `tags` that occurs in the folded url `u`.
pub open spec fn tag_points(tags: Seq<Seq<char>>, u: Seq<char>) -> nat
    decreases tags.len(),
{
    if tags.len() == 0 {
        0
    } else {
        tag_points(tags.drop_last(), u) + if contains(u, fold(tags.last())) {
            10nat
        } else {
            0nat
        }
    }
}

/// How well an entry matches a url: ten points for each tag and twenty for the name found in
/// it, all compared with ASCII letters folded.
pub open spec fn rank_of(entry: EntryView, url: Seq<char>) -> nat {
    tag_points(entry.tags, fold(url)) + if contains(fold(url), fold(entry.name)) {
        20nat
    } else {
        0nat
    }
}

/// The index of the entry with the highest rank among the first `i`, the earliest on a tie.
pub open spec fn leader(entries: Seq<EntryView>, url: Seq<char>, i: int) -> int
    decreases i,
{
    if i <= 1 {
        0
    } else {
        let before = leader(entries, url, i - 1);
        if rank_of(entries[i - 1], url) > rank_of(entries[before], url) {
            i - 1
        } else {
            before
        }
    }
}

/// The entry chosen for a url: the leader, when its rank is above zero.
pub open spec fn chosen(entries: Seq<EntryView>, url: Seq<char>) -> Option<int> {
    if entries.len() > 0 && rank_of(entries[leader(entries, url, entries.len() as int)], url) > 0 {
        Some(leader(entries, url, entries.len() as int))
    } else {
        None
    }
}

/// The number of tags an entry may carry: ranks are `u32`, and ten points a tag plus twenty for
/// the name must fit.
pub const MAX_TAGS: usize = 429_496_727;

/// The rank of an entry for a url.
pub fn rank(entry: &RegistryEntry, url: &str) -> (r: u32)
    requires
        entry.tags@.len() <= MAX_TAGS,
    ensures
        r == rank_of(entry@, url@),
{
    let u = fold_chars(&chars_of(url));
    let mut score: u32 = 0;
    let ghost tags = entry@.tags;
    for i in 0..entry.tags.len()
        invariant
            entry.tags@.len() <= MAX_TAGS,
            tags == entry@.tags,
            u@ == fold(url@),
            score == tag_points(tags.take(i as int), u@),
            score <= 10 * i,
    {
        assert(tags.take(i + 1).drop_last() =~= tags.take(i as int));
        let tag = fold_chars(&chars_of(entry.tags[i].as_str()));
        if includes(&u, &tag) {
            score = score + 10;
        }
    }
    assert(tags.take(tags.len() as int) =~= tags);
    if includes(&u, &fold_chars(&chars_of(entry.name.as_str()))) {
        score = score + 20;
    }
    score
}

/// The registry: luogu, vjudge and xinyoudui, in this order.
pub open spec fn registry() -> Seq<EntryView> {
    seq![
        EntryView { name: "luogu"@, tags: seq!["洛谷"@], site: Site::Luogu },
        EntryView { name: "vj"@, tags: seq!["vjudge"@, "Virtual Judge"@], site: Site::Vjudge },
        EntryView { name: "xyd"@, tags: seq!["xinyoudui"@, "信友队"@], site: Site::Xinyoudui },
    ]
}

/// The registered extractors, in registration order.
pub fn registry_items() -> (r: Vec<RegistryEntry>)
    ensures
        r@.map_values(|e: RegistryEntry| e@) == registry(),
        forall|i: int| 0 <= i < r@.len() ==> (#[trigger] r@[i]).tags@.len() <= MAX_TAGS,
{
    let r = vec![
        RegistryEntry {
            name: "luogu".to_string(),
            tags: vec!["洛谷".to_string()],
            site: Site::Luogu,
        },
        RegistryEntry {
            name: "vj".to_string(),
            tags: vec!["vjudge".to_string(), "Virtual Judge".to_string()],
            site: Site::Vjudge,
        },
        RegistryEntry {
            name: "xyd".to_string(),
            tags: vec!["xinyoudui".to_string(), "信友队".to_string()],
            site: Site::Xinyoudui,
        },
    ];
    assert(r@[0]@.tags =~= registry()[0].tags);
    assert(r@[1]@.tags =~= registry()[1].tags);
    assert(r@[2]@.tags =~= registry()[2].tags);
    assert(r@.map_values(|e: RegistryEntry| e@) =~= registry());
    r
}

/// Chooses an extractor by url among the registered ones.
pub struct ExtractorFactory {
    extractors: Vec<RegistryEntry>,
}

impl View for ExtractorFactory {
    type V = Seq<EntryView>;

    closed spec fn view(&self) -> Seq<EntryView> {
        self.extractors@.map_values(|e: RegistryEntry| e@)
    }
}

impl ExtractorFactory {
    #[verifier::type_invariant]
    spec fn bounded(&self) -> bool {
        forall|i: int| 0 <= i < self.extractors@.len() ==> (#[trigger] self.extractors@[i]).tags@.len() <= MAX_TAGS
    }

    /// A factory over the registry.
    pub fn new() -> (r: Self)
        ensures
            r@ == registry(),
    {
        let items = registry_items();
        ExtractorFactory { extractors: items }
    }

    /// A fresh extractor of the entry with the strictly highest rank for the url, the earliest
    /// registered on a tie, with its display name; `NoExtractor` when every rank is zero.
    pub fn create_extractor(&self, url: &str) -> (r: Result<(SiteExtractor, String)>)
        ensures
            match chosen(self@, url@) {
                Some(i) => r matches Ok((e, name)) && e.site() == self@[i].site && name@ == self@[i].name,
                None => r matches Err(Error::NoExtractor(u)) && u@ == url@,
            },
    {
        proof {
            use_type_invariant(self);
        }
        let n = self.extractors.len();
        if n == 0 {
            return Err(Error::NoExtractor(url.to_string()));
        }
        let ghost entries = self@;
        let mut best: usize = 0;
        let mut best_score: u32 = rank(&self.extractors[0], url);
        let mut i: usize = 1;
        while i < n
            invariant
                1 <= i <= n == self.extractors@.len() == entries.len(),
                entries == self@,
                forall|k: int| 0 <= k < n ==> (#[trigger] self.extractors@[k]).tags@.len() <= MAX_TAGS,
                best == leader(entries, url@, i as int),
                best < i,
                best_score == rank_of(entries[best as int], url@),
            decreases n - i,
        {
            let s = rank(&self.extractors[i], url);
            assert(entries[i as int] == self.extractors@[i as int]@);
            if s > best_score {
                best = i;
                best_score = s;
            }
            i = i + 1;
        }
        if best_score == 0 {
            return Err(Error::NoExtractor(url.to_string()));
        }
        let entry = &self.extractors[best];
        Ok((SiteExtractor::of(entry.site), entry.name.clone()))
    }
}

/// Chooses an extractor for a url among the registered ones, with its display name.
pub fn create_extractor(url: &str) -> (r: Result<(SiteExtractor, String)>)
    ensures
        match chosen(registry(), url@) {
            Some(i) => r matches Ok((e, name)) && e.site() == registry()[i].site && name@ == registry()[i].name,
            None => r matches Err(Error::NoExtractor(u)) && u@ == url@,
        },
{
    ExtractorFactory::new().create_extractor(url)
}

/// The outcome owed by `extract` for a url and markup.
pub open spec fn extracted(url: Seq<char>, content: Seq<char>, r: Result<Submission>) -> bool {
    match chosen(registry(), url) {
        Some(i) => {
            &&& blank(content) ==> (r matches Err(Error::Extract(e)) && e.kind is EmptyContent
                && e.partial is None)
            &&& !blank(content) ==> validated(site_record(registry()[i].site, url, content), r)
        },
        None => r matches Err(Error::NoExtractor(u)) && u@ == url,
    }
}

/// Chooses an extractor for the url and extracts the record from the markup.
pub fn extract(url: &str, content: &str) -> (r: Result<Submission>)
    ensures
        extracted(url@, content@, r),
{
    match create_extractor(url) {
        Ok((e, _name)) => e.extract(url, content),
        Err(e) => Err(e),
    }
}

} // verus!
