//! Routes carried in a URL fragment of the form `#/<story-id>`.
use vstd::prelude::*;

verus! {

/// `s` without its leading run of `c`.
pub open spec fn trim_leading(s: Seq<char>, c: char) -> Seq<char>
    decreases s.len(),
{
    if s.len() > 0 && s[0] == c {
        trim_leading(s.drop_first(), c)
    } else {
        s
    }
}

/// The route text of a fragment: leading `#`s, then leading `/`s, removed.
pub open spec fn route_text(hash: Seq<char>) -> Seq<char> {
    trim_leading(trim_leading(hash, '#'), '/')
}

/// What `str::to_lowercase` returns for a text.
pub uninterp spec fn lower_of(s: Seq<char>) -> Seq<char>;

/// The fragment that shows a story: empty when no story is selected.
pub open spec fn hash_for(story_id: Seq<char>) -> Seq<char> {
    if story_id.len() == 0 {
        Seq::empty()
    } else {
        "#/"@ + story_id
    }
}

/// Relies on `str::to_lowercase`: the lowercase form of a text, which
/// depends on its characters alone.
#[verifier::external_body]
pub(crate) fn lowercase(s: &str) -> (r: String)
    ensures
        r@ == lower_of(s@),
{
    s.to_lowercase()
}

/// Removing a leading run of `c` from a suffix that starts with `c` is the
/// same as from the suffix one further on.
proof fn lemma_trim_step(s: Seq<char>, i: int, c: char)
    requires
        0 <= i < s.len(),
        s[i] == c,
    ensures
        trim_leading(s.skip(i), c) == trim_leading(s.skip(i + 1), c),
{
    assert(s.skip(i).drop_first() =~= s.skip(i + 1));
}

/// Index of the first character at or after `from` that is not `c`.
fn skip_run(s: &str, from: usize, c: char) -> (r: usize)
    requires
        from <= s@.len(),
    ensures
        from <= r <= s@.len(),
        trim_leading(s@.skip(from as int), c) == s@.skip(r as int),
{
    let n = s.unicode_len();
    let mut i = from;
    while i < n && s.get_char(i) == c
        invariant
            n == s@.len(),
            from <= i <= n,
            trim_leading(s@.skip(from as int), c) == trim_leading(s@.skip(i as int), c),
        decreases n - i,
    {
        proof {
            lemma_trim_step(s@, i as int, c);
        }
        i = i + 1;
    }
    i
}

/// The story route in a URL fragment: the fragment without its leading `#`s
/// and `/`s, lowercased; `None` when nothing is left.
pub fn get_initial_route(hash: &str) -> (r: Option<String>)
    ensures
        route_text(hash@).len() == 0 <==> r is None,
        r is Some ==> r->0@ == lower_of(route_text(hash@)),
{
    assert(hash@.skip(0) =~= hash@);
    let i = skip_run(hash, 0, '#');
    let j = skip_run(hash, i, '/');
    let n = hash.unicode_len();
    if j == n {
        None
    } else {
        let route = hash.substring_char(j, n);
        assert(route@ =~= hash@.skip(j as int));
        Some(lowercase(route))
    }
}

/// The fragment to show for the selected story: `#/<story-id>`, or empty
/// when no story is selected.
pub fn set_url_hash(story_id: &str) -> (r: String)
    ensures
        r@ == hash_for(story_id@),
{
    if story_id.unicode_len() == 0 {
        String::new()
    } else {
        let mut hash = "#/".to_owned();
        hash.append(story_id);
        hash
    }
}

/// A story's fragment reads back as the story's id, for an id that is not
/// empty and does not start with `#` or `/`.
pub proof fn lemma_hash_reads_back(story_id: Seq<char>)
    requires
        story_id.len() > 0,
        story_id[0] != '#',
        story_id[0] != '/',
    ensures
        route_text(hash_for(story_id)) == story_id,
{
    reveal_strlit("#/");
    let h = "#/"@ + story_id;
    assert(h.drop_first() =~= seq!['/'] + story_id);
    assert(h.drop_first().drop_first() =~= story_id);
    assert(trim_leading(h.drop_first(), '#') == h.drop_first());
    assert(trim_leading(h.drop_first().drop_first(), '/') == story_id);
}

} // verus!
