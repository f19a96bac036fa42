use vstd::prelude::*;

verus! {

/// The page served for the site's root.
pub const INDEX_FILE: &'static str = "index.html";

/// The request path with every leading `/` removed.
pub open spec fn trim_leading_slashes(p: Seq<char>) -> Seq<char>
    decreases p.len(),
{
    if p.len() > 0 && p[0] == '/' {
        trim_leading_slashes(p.drop_first())
    } else {
        p
    }
}

/// Which embedded file answers a request path.
#[derive(Debug)]
pub enum StaticLookup {
    /// An asset served as it is stored.
    File(String),
    /// A markdown page, rendered to HTML before it is served.
    Markdown(String),
}

/// A lookup as plain values.
pub enum LookupView {
    File(Seq<char>),
    Markdown(Seq<char>),
}

impl View for StaticLookup {
    type V = LookupView;

    open spec fn view(&self) -> LookupView {
        match self {
            StaticLookup::File(f) => LookupView::File(f@),
            StaticLookup::Markdown(f) => LookupView::Markdown(f@),
        }
    }
}

/// A path with a dot names an asset; the empty path names the index page;
/// any other path names the markdown page of that name.
pub open spec fn lookup_of(path: Seq<char>) -> LookupView {
    let p = trim_leading_slashes(path);
    if p.contains('.') {
        LookupView::File(p)
    } else if p.len() == 0 {
        LookupView::File(INDEX_FILE@)
    } else {
        LookupView::Markdown(p + ".md"@)
    }
}

proof fn lemma_trim_step(p: Seq<char>, i: int)
    requires
        0 <= i < p.len(),
        p[i] == '/',
    ensures
        trim_leading_slashes(p.subrange(i, p.len() as int)) == trim_leading_slashes(
            p.subrange(i + 1, p.len() as int),
        ),
{
    assert(p.subrange(i, p.len() as int).drop_first() =~= p.subrange(i + 1, p.len() as int));
}

/// Chooses the embedded file that answers the request path `path`.
pub fn static_lookup(path: &str) -> (r: StaticLookup)
    ensures
        r@ == lookup_of(path@),
{
    let n = path.unicode_len();
    let mut i: usize = 0;
    proof {
        assert(path@.subrange(0, n as int) =~= path@);
    }
    while i < n && path.get_char(i) == '/'
        invariant
            n == path@.len(),
            i <= n,
            trim_leading_slashes(path@) == trim_leading_slashes(path@.subrange(i as int, n as int)),
        decreases n - i,
    {
        proof {
            lemma_trim_step(path@, i as int);
        }
        i += 1;
    }
    let rest = path.substring_char(i, n);
    assert(trim_leading_slashes(rest@) == rest@);
    let m = n - i;
    let mut j: usize = 0;
    let mut has_dot = false;
    while j < m
        invariant
            m == rest@.len(),
            j <= m,
            has_dot == (exists|k: int| 0 <= k < j && rest@[k] == '.'),
        decreases m - j,
    {
        if rest.get_char(j) == '.' {
            has_dot = true;
        }
        j += 1;
    }
    assert(has_dot == rest@.contains('.'));
    if has_dot {
        StaticLookup::File(String::from_str(rest))
    } else if m == 0 {
        StaticLookup::File(String::from_str(INDEX_FILE))
    } else {
        let mut page = String::from_str(rest);
        page.append(".md");
        StaticLookup::Markdown(page)
    }
}

} // verus!
