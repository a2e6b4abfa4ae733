//! Local-only changelog reader: release notes are never downloaded; local
//! cache files stay readable (reading them is left to the caller).
use crate::paths::{join_relative, joined};
use crate::text::{chars_of, is_blank, push_char, string_from_chars, trims_to_empty};
use vstd::prelude::*;

verus! {

/// One release-note entry.
#[derive(Debug, Clone)]
pub struct ChangelogEntry {
    pub category: String,
    pub description: String,
    pub breaking_change: bool,
}

/// Release notes as found in the local cache.
pub struct Changelog {
    pub markdown: Option<String>,
    pub entries: Option<Vec<ChangelogEntry>>,
}

/// Knows where the local changelog caches live.
pub struct ChangelogManager {
    md_cache: String,
    json_cache: String,
}

/// File name of the markdown cache.
pub const MD_CACHE_NAME: &'static str = "CHANGELOG.md";

/// File name of the JSON cache.
pub const JSON_CACHE_NAME: &'static str = "CHANGELOG.json";

/// The Grok home that is used: `GROK_HOME` when it is set and non-empty,
/// the default home otherwise.
pub open spec fn effective_home(env_home: Option<Seq<char>>, default_home: Seq<char>) -> Seq<
    char,
> {
    match env_home {
        Some(h) => if h.len() > 0 {
            h
        } else {
            default_home
        },
        None => default_home,
    }
}

impl ChangelogManager {
    /// Path of the markdown cache.
    pub closed spec fn md_cache_view(&self) -> Seq<char> {
        self.md_cache@
    }

    /// Path of the JSON cache.
    pub closed spec fn json_cache_view(&self) -> Seq<char> {
        self.json_cache@
    }

    /// Locate the caches under `GROK_HOME` (passed in as `env_home`) or
    /// under the default Grok home.
    pub fn new(env_home: Option<&str>, default_home: &str) -> (m: ChangelogManager)
        ensures
            m.md_cache_view() == joined(
                effective_home(
                    match env_home {
                        Some(h) => Some(h@),
                        None => None,
                    },
                    default_home@,
                ),
                MD_CACHE_NAME@,
            ),
            m.json_cache_view() == joined(
                effective_home(
                    match env_home {
                        Some(h) => Some(h@),
                        None => None,
                    },
                    default_home@,
                ),
                JSON_CACHE_NAME@,
            ),
    {
        let home: &str = match env_home {
            Some(h) => if chars_of(h).len() > 0 {
                h
            } else {
                default_home
            },
            None => default_home,
        };
        proof {
            reveal_strlit("CHANGELOG.md");
            reveal_strlit("CHANGELOG.json");
        }
        ChangelogManager {
            md_cache: join_relative(home, MD_CACHE_NAME),
            json_cache: join_relative(home, JSON_CACHE_NAME),
        }
    }

    /// Path of the markdown cache.
    pub fn md_cache(&self) -> (res: &str)
        ensures
            res@ == self.md_cache_view(),
    {
        self.md_cache.as_str()
    }

    /// Path of the JSON cache.
    pub fn json_cache(&self) -> (res: &str)
        ensures
            res@ == self.json_cache_view(),
    {
        self.json_cache.as_str()
    }
}

/// A cache file's content counts only when it is not blank.
pub fn usable_cache(content: Option<String>) -> (res: Option<String>)
    ensures
        match content {
            Some(c) => if is_blank(c@) {
                res is None
            } else {
                res == Some(c)
            },
            None => res is None,
        },
{
    match content {
        Some(c) => if trims_to_empty(c.as_str()) {
            None
        } else {
            Some(c)
        },
        None => None,
    }
}

/// `s.replace("**", "")`: removes each non-overlapping `**`, scanning left
/// to right.
pub open spec fn without_double_stars(s: Seq<char>) -> Seq<char>
    decreases s.len(),
{
    if s.len() == 0 {
        s
    } else if s.len() >= 2 && s[0] == '*' && s[1] == '*' {
        without_double_stars(s.subrange(2, s.len() as int))
    } else {
        seq![s[0]] + without_double_stars(s.drop_first())
    }
}

/// `s.replace('`', "")`: drops every backtick.
pub open spec fn without_backticks(s: Seq<char>) -> Seq<char>
    decreases s.len(),
{
    if s.len() == 0 {
        s
    } else if s[0] == '`' {
        without_backticks(s.drop_first())
    } else {
        seq![s[0]] + without_backticks(s.drop_first())
    }
}

/// Inline markdown emphasis and code marks removed.
pub open spec fn stripped(s: Seq<char>) -> Seq<char> {
    without_backticks(without_double_stars(s))
}

fn remove_double_stars(s: &Vec<char>) -> (res: Vec<char>)
    ensures
        res@ == without_double_stars(s@),
{
    let mut res: Vec<char> = Vec::new();
    let mut i: usize = 0;
    assert(s@.subrange(0, s@.len() as int) =~= s@);
    assert(res@ + without_double_stars(s@) =~= without_double_stars(s@));
    while i < s.len()
        invariant
            i <= s@.len(),
            res@ + without_double_stars(s@.subrange(i as int, s@.len() as int))
                == without_double_stars(s@),
        decreases s@.len() - i,
    {
        let ghost rest = s@.subrange(i as int, s@.len() as int);
        if i + 1 < s.len() && s[i] == '*' && s[i + 1] == '*' {
            assert(rest.subrange(2, rest.len() as int) =~= s@.subrange(i + 2, s@.len() as int));
            i = i + 2;
        } else {
            assert(rest.drop_first() =~= s@.subrange(i + 1, s@.len() as int));
            assert(res@.push(s@[i as int]) + without_double_stars(rest.drop_first()) =~= res@
                + (seq![rest[0]] + without_double_stars(rest.drop_first())));
            res.push(s[i]);
            i = i + 1;
        }
    }
    assert(s@.subrange(i as int, s@.len() as int) =~= Seq::<char>::empty());
    assert(res@ =~= res@ + without_double_stars(Seq::<char>::empty()));
    res
}

fn remove_backticks(s: &Vec<char>) -> (res: Vec<char>)
    ensures
        res@ == without_backticks(s@),
{
    let mut res: Vec<char> = Vec::new();
    let mut i: usize = 0;
    assert(s@.subrange(0, s@.len() as int) =~= s@);
    assert(res@ + without_backticks(s@) =~= without_backticks(s@));
    while i < s.len()
        invariant
            i <= s@.len(),
            res@ + without_backticks(s@.subrange(i as int, s@.len() as int)) == without_backticks(
                s@,
            ),
        decreases s@.len() - i,
    {
        let ghost rest = s@.subrange(i as int, s@.len() as int);
        assert(rest.drop_first() =~= s@.subrange(i + 1, s@.len() as int));
        if s[i] != '`' {
            assert(res@.push(s@[i as int]) + without_backticks(rest.drop_first()) =~= res@ + (
            seq![rest[0]] + without_backticks(rest.drop_first())));
            res.push(s[i]);
        }
        i = i + 1;
    }
    assert(s@.subrange(i as int, s@.len() as int) =~= Seq::<char>::empty());
    assert(res@ =~= res@ + without_backticks(Seq::<char>::empty()));
    res
}

/// Remove inline markdown emphasis (`**`) and code marks (`` ` ``).
pub fn strip_markdown_inline(value: &str) -> (res: String)
    ensures
        res@ == stripped(value@),
{
    let chars = chars_of(value);
    let no_stars = remove_double_stars(&chars);
    let plain = remove_backticks(&no_stars);
    string_from_chars(&plain)
}

/// The bullet texts of the first `max` entries that have a description.
pub open spec fn bullets(entries: Seq<ChangelogEntry>, max: nat) -> Seq<Seq<char>>
    decreases entries.len(),
{
    if entries.len() == 0 || max == 0 {
        Seq::empty()
    } else if entries[0].description@.len() == 0 {
        bullets(entries.drop_first(), max)
    } else {
        seq![stripped(entries[0].description@)] + bullets(entries.drop_first(), (max - 1) as nat)
    }
}

/// Bullet texts for the first `max` entries with a non-empty description,
/// with inline markdown removed.
pub fn bullets_from_entries(entries: &[ChangelogEntry], max: usize) -> (res: Vec<String>)
    ensures
        res@.len() == bullets(entries@, max as nat).len(),
        forall|i: int| 0 <= i < res@.len() ==> #[trigger] res@[i]@ == bullets(entries@, max as nat)[i],
{
    let mut res: Vec<String> = Vec::new();
    let mut i: usize = 0;
    assert(entries@.subrange(0, entries@.len() as int) =~= entries@);
    assert(Seq::new(res@.len(), |k: int| res@[k]@) + bullets(entries@, max as nat) =~= bullets(
        entries@,
        max as nat,
    ));
    while i < entries.len() && res.len() < max
        invariant
            i <= entries@.len(),
            res@.len() <= max,
            ({
                let done = Seq::new(res@.len(), |k: int| res@[k]@);
                done + bullets(entries@.subrange(i as int, entries@.len() as int), (max - res@.len()) as nat)
                    == bullets(entries@, max as nat)
            }),
        decreases entries@.len() - i,
    {
        let ghost rest = entries@.subrange(i as int, entries@.len() as int);
        let ghost old_done = Seq::new(res@.len(), |k: int| res@[k]@);
        assert(rest.drop_first() =~= entries@.subrange(i + 1, entries@.len() as int));
        let description = chars_of(entries[i].description.as_str());
        if description.len() > 0 {
            let bullet = strip_markdown_inline(entries[i].description.as_str());
            res.push(bullet);
            let ghost new_done = Seq::new(res@.len(), |k: int| res@[k]@);
            assert(new_done =~= old_done.push(stripped(rest[0].description@)));
            assert(new_done + bullets(rest.drop_first(), (max - res@.len()) as nat) =~= old_done
                + (seq![stripped(rest[0].description@)] + bullets(
                rest.drop_first(),
                (max - res@.len()) as nat,
            )));
        }
        i = i + 1;
    }
    let ghost done = Seq::new(res@.len(), |k: int| res@[k]@);
    assert(done + bullets(entries@.subrange(i as int, entries@.len() as int), (max - res@.len()) as nat)
        =~= done);
    res
}


proof fn lemma_without_backticks_has_none(s: Seq<char>)
    ensures
        !without_backticks(s).contains('`'),
    decreases s.len(),
{
    if s.len() > 0 {
        lemma_without_backticks_has_none(s.drop_first());
        let r = without_backticks(s.drop_first());
        if s[0] != '`' {
            assert forall|i: int| 0 <= i < (seq![s[0]] + r).len() implies (seq![s[0]] + r)[i]
                != '`' by {
                if i > 0 {
                    assert((seq![s[0]] + r)[i] == r[i - 1]);
                }
            }
        }
    }
}

/// A stripped text holds no backtick. (It may still hold `**`: stripping
/// `` *`* `` leaves `**`.)
pub proof fn lemma_stripped_has_no_backticks(s: Seq<char>)
    ensures
        !stripped(s).contains('`'),
{
    lemma_without_backticks_has_none(without_double_stars(s));
}

/// There are at most `max` bullets, and none holds a backtick.
pub proof fn lemma_bullets_bounded_and_plain(entries: Seq<ChangelogEntry>, max: nat)
    ensures
        bullets(entries, max).len() <= max,
        forall|i: int|
            0 <= i < bullets(entries, max).len() ==> !(#[trigger] bullets(entries, max)[i]).contains(
                '`',
            ),
    decreases entries.len(),
{
    if entries.len() == 0 || max == 0 {
    } else if entries[0].description@.len() == 0 {
        lemma_bullets_bounded_and_plain(entries.drop_first(), max);
    } else {
        let rest = bullets(entries.drop_first(), (max - 1) as nat);
        lemma_bullets_bounded_and_plain(entries.drop_first(), (max - 1) as nat);
        lemma_stripped_has_no_backticks(entries[0].description@);
        let b = bullets(entries, max);
        assert(b == seq![stripped(entries[0].description@)] + rest);
        assert forall|i: int| 0 <= i < b.len() implies !(#[trigger] b[i]).contains('`') by {
            if i > 0 {
                assert(b[i] == rest[i - 1]);
            }
        }
    }
}

/// Whether an entry has a description to show.
pub open spec fn has_description(e: ChangelogEntry) -> bool {
    e.description@.len() > 0
}

/// The bullets are exactly the stripped descriptions of the first `max`
/// entries that have a description, in order, whatever their category or
/// breaking-change flag.
pub proof fn lemma_bullets_follow_described_entries(entries: Seq<ChangelogEntry>, max: nat)
    ensures
        ({
            let d = entries.filter(|e: ChangelogEntry| has_description(e));
            &&& bullets(entries, max).len() == (if max < d.len() {
                max
            } else {
                d.len()
            })
            &&& forall|i: int|
                0 <= i < bullets(entries, max).len() ==> #[trigger] bullets(entries, max)[i]
                    == stripped(d[i].description@)
        }),
    decreases entries.len(),
{
    let p = |e: ChangelogEntry| has_description(e);
    let d = entries.filter(p);
    if entries.len() == 0 {
        assert(d.len() == 0) by {
            reveal(Seq::filter);
        }
    } else {
        let rest = entries.drop_first();
        assert(entries =~= seq![entries[0]] + rest);
        rest.lemma_filter_prepend(entries[0], p);
        let dr = rest.filter(p);
        if max == 0 {
        } else if entries[0].description@.len() == 0 {
            lemma_bullets_follow_described_entries(rest, max);
            assert(d =~= dr);
        } else {
            lemma_bullets_follow_described_entries(rest, (max - 1) as nat);
            assert(d =~= seq![entries[0]] + dr);
            let b = bullets(entries, max);
            let br = bullets(rest, (max - 1) as nat);
            assert(b == seq![stripped(entries[0].description@)] + br);
            assert forall|i: int| 0 <= i < b.len() implies #[trigger] b[i] == stripped(
                d[i].description@,
            ) by {
                if i > 0 {
                    assert(b[i] == br[i - 1]);
                    assert(d[i] == dr[i - 1]);
                }
            }
        }
    }
}

} // verus!
