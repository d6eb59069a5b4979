//! Sidebar navigation data: stories grouped into sections by category.
use vstd::prelude::*;

use crate::story::StoryMeta;
use crate::text::{
    lemma_text_less_irreflexive, lemma_text_less_total, lemma_text_less_transitive, less_than,
    same_text, text_less,
};

verus! {

/// A navigation item in the sidebar.
#[derive(Debug, Clone)]
pub struct NavItem {
    pub id: String,
    pub label: String,
}

/// A section of the sidebar holding navigation items.
#[derive(Debug, Clone)]
pub struct SidebarSection {
    pub title: String,
    pub items: Vec<NavItem>,
}

/// What the sidebar shows: its title and its sections.
#[derive(Debug, Clone)]
pub struct SidebarConfig {
    pub title: String,
    pub sections: Vec<SidebarSection>,
}

/// Messages from sidebar interactions.
#[derive(Debug, Clone)]
pub enum SidebarMessage {
    ToggleBrightness,
    SelectStory(String),
    SearchChanged(String),
}

/// Model of a navigation item.
pub struct NavItemView {
    pub id: Seq<char>,
    pub label: Seq<char>,
}

/// Model of a sidebar section.
pub struct SectionView {
    pub title: Seq<char>,
    pub items: Seq<NavItemView>,
}

/// Model of a sidebar configuration.
pub struct SidebarConfigView {
    pub title: Seq<char>,
    pub sections: Seq<SectionView>,
}

impl View for NavItem {
    type V = NavItemView;

    open spec fn view(&self) -> NavItemView {
        NavItemView { id: self.id@, label: self.label@ }
    }
}

impl View for SidebarSection {
    type V = SectionView;

    open spec fn view(&self) -> SectionView {
        SectionView { title: self.title@, items: self.items@.map_values(|i: NavItem| i@) }
    }
}

impl View for SidebarConfig {
    type V = SidebarConfigView;

    open spec fn view(&self) -> SidebarConfigView {
        SidebarConfigView {
            title: self.title@,
            sections: self.sections@.map_values(|s: SidebarSection| s@),
        }
    }
}

/// The navigation item that stands for a story.
pub open spec fn nav_of(m: StoryMeta) -> NavItemView {
    NavItemView { id: m.id@, label: m.title@ }
}

/// The navigation items of the stories in `category`, in registration order.
pub open spec fn items_in(stories: Seq<StoryMeta>, category: Seq<char>) -> Seq<NavItemView>
    decreases stories.len(),
{
    if stories.len() == 0 {
        Seq::empty()
    } else {
        let rest = items_in(stories.drop_last(), category);
        if stories.last().category@ == category {
            rest.push(nav_of(stories.last()))
        } else {
            rest
        }
    }
}

/// Whether some story belongs to `category`.
pub open spec fn has_category(stories: Seq<StoryMeta>, category: Seq<char>) -> bool {
    exists|k: int| 0 <= k < stories.len() && (#[trigger] stories[k]).category@ == category
}

/// The sections that group `stories`: one per category, sorted by category,
/// each holding that category's stories in registration order.
pub open spec fn groups(stories: Seq<StoryMeta>, sections: Seq<SectionView>) -> bool {
    &&& forall|i: int, j: int|
        0 <= i < j < sections.len() ==> text_less(
            #[trigger] sections[i].title,
            #[trigger] sections[j].title,
        )
    &&& forall|i: int|
        0 <= i < sections.len() ==> has_category(stories, #[trigger] sections[i].title)
    &&& forall|k: int|
        0 <= k < stories.len() ==> exists|i: int|
            0 <= i < sections.len() && (#[trigger] sections[i]).title == (#[trigger] stories[k]).category@
    &&& forall|i: int|
        0 <= i < sections.len() ==> (#[trigger] sections[i]).items == items_in(
            stories,
            sections[i].title,
        )
}

/// Builds the sidebar from story metadata: stories are grouped by category,
/// sections are sorted by category name, and items keep registration order.
pub fn build_sidebar_config(title: &str, stories: &[StoryMeta]) -> (r: SidebarConfig)
    ensures
        r@.title == title@,
        groups(stories@, r@.sections),
{
    let mut sections: Vec<SidebarSection> = Vec::new();
    let mut k: usize = 0;
    while k < stories.len()
        invariant
            k <= stories@.len(),
            groups(stories@.take(k as int), sections@.map_values(|s: SidebarSection| s@)),
        decreases stories@.len() - k,
    {
        let story = stories[k];
        let ghost done = stories@.take(k as int);
        let ghost next = stories@.take(k + 1);
        let ghost before = sections@.map_values(|s: SidebarSection| s@);
        assert(next.drop_last() =~= done);
        assert(next.last() == story);
        // First section whose title does not come before the story's category.
        let mut p: usize = 0;
        while p < sections.len() && less_than(sections[p].title.as_str(), story.category)
            invariant
                p <= sections@.len(),
                before == sections@.map_values(|s: SidebarSection| s@),
                forall|i: int| 0 <= i < p ==> text_less(#[trigger] before[i].title, story.category@),
            decreases sections@.len() - p,
        {
            p = p + 1;
        }
        let item = NavItem { id: story.id.to_owned(), label: story.title.to_owned() };
        if p < sections.len() && same_text(sections[p].title.as_str(), story.category) {
            sections[p].items.push(item);
            proof {
                let after = sections@.map_values(|s: SidebarSection| s@);
                assert(after[p as int].items =~= before[p as int].items.push(nav_of(story)));
                assert forall|i: int, j: int| 0 <= i < j < after.len() implies text_less(
                    #[trigger] after[i].title,
                    #[trigger] after[j].title,
                ) by {
                    assert(after[i].title == before[i].title);
                    assert(after[j].title == before[j].title);
                }
                assert forall|i: int| 0 <= i < after.len() implies #[trigger] after[i].items
                    == items_in(next, after[i].title) by {
                    assert(after[i].title == before[i].title);
                }
                assert forall|i: int| 0 <= i < after.len() implies has_category(
                    next,
                    #[trigger] after[i].title,
                ) by {
                    let w = choose|w: int| 0 <= w < done.len() && done[w].category@ == before[i].title;
                    assert(next[w] == done[w]);
                }
                assert forall|w: int| 0 <= w < next.len() implies exists|i: int|
                    0 <= i < after.len() && (#[trigger] after[i]).title == (
                    #[trigger] next[w]).category@ by {
                    if w < done.len() {
                        assert(next[w] == done[w]);
                        let i = choose|i: int| 0 <= i < before.len() && before[i].title == done[w].category@;
                        assert(after[i].title == before[i].title);
                    } else {
                        assert(after[p as int].title == next[w].category@);
                    }
                }
                assert(groups(next, after));
            }
        } else {
            let section = SidebarSection { title: story.category.to_owned(), items: vec![item] };
            proof {
                assert forall|i: int| 0 <= i < before.len() implies !(#[trigger] before[i].title
                    == story.category@) by {
                    if i < p {
                        lemma_text_less_irreflexive(story.category@);
                    } else if i > p {
                        lemma_text_less_total(before[p as int].title, story.category@);
                        lemma_text_less_transitive(story.category@, before[p as int].title, before[i].title);
                        lemma_text_less_irreflexive(story.category@);
                    }
                }
                assert(items_in(done, story.category@) =~= Seq::<NavItemView>::empty()) by {
                    lemma_items_in_absent(done, story.category@);
                }
            }
            sections.insert(p, section);
            proof {
                let after = sections@.map_values(|s: SidebarSection| s@);
                assert(after =~= before.insert(p as int, section@));
                assert(section@.items =~= seq![nav_of(story)]);
                assert forall|i: int, j: int| 0 <= i < j < after.len() implies text_less(
                    #[trigger] after[i].title,
                    #[trigger] after[j].title,
                ) by {
                    if j == p {
                    } else if i == p {
                        lemma_text_less_total(before[p as int].title, story.category@);
                        if j > p + 1 {
                            lemma_text_less_transitive(story.category@, before[p as int].title, before[j - 1].title);
                        }
                    }
                }
                assert forall|i: int| 0 <= i < after.len() implies #[trigger] after[i].items
                    == items_in(next, after[i].title) by {
                    if i != p {
                        let b = if i < p { i } else { i - 1 };
                        assert(after[i] == before[b]);
                    }
                }
                assert forall|i: int| 0 <= i < after.len() implies has_category(
                    next,
                    #[trigger] after[i].title,
                ) by {
                    if i != p {
                        let b = if i < p { i } else { i - 1 };
                        assert(after[i] == before[b]);
                        let w = choose|w: int| 0 <= w < done.len() && done[w].category@ == before[b].title;
                        assert(next[w] == done[w]);
                    } else {
                        assert(next[k as int] == story);
                    }
                }
                assert forall|w: int| 0 <= w < next.len() implies exists|i: int|
                    0 <= i < after.len() && (#[trigger] after[i]).title == (
                    #[trigger] next[w]).category@ by {
                    if w < done.len() {
                        assert(next[w] == done[w]);
                        let b = choose|b: int| 0 <= b < before.len() && before[b].title == done[w].category@;
                        let i = if b < p { b } else { b + 1 };
                        assert(after[i] == before[b]);
                    } else {
                        assert(after[p as int].title == next[w].category@);
                    }
                }
                assert(groups(next, after));
            }
        }
        k = k + 1;
    }
    assert(stories@.take(k as int) =~= stories@);
    SidebarConfig { title: title.to_owned(), sections }
}

/// A category that no story has holds no items.
proof fn lemma_items_in_absent(stories: Seq<StoryMeta>, category: Seq<char>)
    requires
        !has_category(stories, category),
    ensures
        items_in(stories, category) == Seq::<NavItemView>::empty(),
    decreases stories.len(),
{
    if stories.len() > 0 {
        assert(!has_category(stories.drop_last(), category)) by {
            if has_category(stories.drop_last(), category) {
                let w = choose|w: int| 0 <= w < stories.drop_last().len() && stories.drop_last()[w].category@ == category;
                assert(stories[w] == stories.drop_last()[w]);
            }
        }
        lemma_items_in_absent(stories.drop_last(), category);
    }
}

/// Up to index `i`, two groupings of the same stories have the same titles.
proof fn lemma_titles_agree(stories: Seq<StoryMeta>, a: Seq<SectionView>, b: Seq<SectionView>, i: int)
    requires
        groups(stories, a),
        groups(stories, b),
        0 <= i < a.len(),
        i < b.len(),
    ensures
        forall|m: int| 0 <= m <= i ==> (#[trigger] a[m]).title == b[m].title,
    decreases i,
{
    if i > 0 {
        lemma_titles_agree(stories, a, b, i - 1);
    }
    assert(has_category(stories, a[i].title));
    let k = choose|k: int| 0 <= k < stories.len() && (#[trigger] stories[k]).category@ == a[i].title;
    let j = choose|j: int| 0 <= j < b.len() && (#[trigger] b[j]).title == stories[k].category@;
    assert(has_category(stories, b[i].title));
    let k2 = choose|k: int| 0 <= k < stories.len() && (#[trigger] stories[k]).category@ == b[i].title;
    let m = choose|m: int| 0 <= m < a.len() && (#[trigger] a[m]).title == stories[k2].category@;
    lemma_text_less_irreflexive(a[i].title);
    lemma_text_less_irreflexive(b[i].title);
    if j < i {
        assert(a[j].title == b[j].title);
        assert(text_less(a[j].title, a[i].title));
    } else if m < i {
        assert(a[m].title == b[m].title);
        assert(text_less(b[m].title, b[i].title));
    } else if j > i && m > i {
        assert(text_less(a[i].title, a[m].title));
        assert(text_less(b[i].title, b[j].title));
        lemma_text_less_transitive(a[i].title, a[m].title, b[j].title);
    }
}

/// A grouping of `b` has no more sections than a grouping `a` of the same
/// stories.
proof fn lemma_grouping_not_longer(stories: Seq<StoryMeta>, a: Seq<SectionView>, b: Seq<SectionView>)
    requires
        groups(stories, a),
        groups(stories, b),
    ensures
        a.len() <= b.len(),
{
    if a.len() > b.len() {
        let n = b.len() as int;
        assert(has_category(stories, a[n].title));
        let k = choose|k: int| 0 <= k < stories.len() && (#[trigger] stories[k]).category@ == a[n].title;
        let j = choose|j: int| 0 <= j < b.len() && (#[trigger] b[j]).title == stories[k].category@;
        lemma_titles_agree(stories, a, b, n - 1);
        assert(a[j].title == b[j].title);
        assert(text_less(a[j].title, a[n].title));
        lemma_text_less_irreflexive(a[n].title);
    }
}

/// The sidebar sections are determined by the stories: two section lists
/// that both group the same stories are equal.
pub proof fn lemma_grouping_unique(stories: Seq<StoryMeta>, a: Seq<SectionView>, b: Seq<SectionView>)
    requires
        groups(stories, a),
        groups(stories, b),
    ensures
        a == b,
{
    lemma_grouping_not_longer(stories, a, b);
    lemma_grouping_not_longer(stories, b, a);
    if a.len() > 0 {
        lemma_titles_agree(stories, a, b, a.len() - 1);
        assert forall|i: int| 0 <= i < a.len() implies a[i] == b[i] by {
            assert(a[i].title == b[i].title);
            assert(a[i].items == items_in(stories, a[i].title));
            assert(b[i].items == items_in(stories, b[i].title));
        }
    }
    assert(a =~= b);
}

} // verus!
