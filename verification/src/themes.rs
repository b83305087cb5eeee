use crate::error::Error;
use crate::instance::Instance;
use crate::query::filter_push;
use crate::text::starts_with;
use vstd::prelude::*;

verus! {

/// An entry of the directory of style sheets.
#[derive(Debug)]
pub struct DirEntry {
    /// Whether the entry is a directory, where that could be told.
    pub is_dir: Option<bool>,
    /// The entry's last path component, where it is a text.
    pub name: Option<String>,
    /// Whether the entry holds a file `theme.css`.
    pub has_theme_css: bool,
}

impl DirEntry {
    /// Whether the entry holds a theme for blogs, or one for the whole instance.
    pub open spec fn is_theme(self, for_blogs: bool) -> bool {
        &&& self.is_dir == Some(true)
        &&& self.has_theme_css
        &&& self.name matches Some(name) && "blog-"@.is_prefix_of(name@) == for_blogs
    }
}

/// Of an entry that could be read, or not: it holds a theme.
pub open spec fn holds_theme(for_blogs: bool) -> spec_fn(Option<DirEntry>) -> bool {
    |entry: Option<DirEntry>| entry matches Some(e) && e.is_theme(for_blogs)
}

/// Of an entry that holds a theme: the theme's name.
pub open spec fn theme_name() -> spec_fn(Option<DirEntry>) -> String {
    |entry: Option<DirEntry>| entry->0.name->0
}

/// The names of the themes among `entries`, in the order of the entries.
pub open spec fn theme_names(entries: Seq<Option<DirEntry>>, for_blogs: bool) -> Seq<String> {
    entries.filter(holds_theme(for_blogs)).map_values(theme_name())
}

/// The names of the themes among `entries`.
fn collect_themes(entries: &Vec<Option<DirEntry>>, for_blogs: bool) -> (names: Vec<String>)
    ensures
        names@ == theme_names(entries@, for_blogs),
{
    let mut names: Vec<String> = Vec::new();
    let mut i: usize = 0;
    proof {
        reveal(Seq::filter);
        assert(theme_names(entries@.take(0), for_blogs) =~= Seq::<String>::empty());
    }
    while i < entries.len()
        invariant
            i <= entries.len(),
            names@ == theme_names(entries@.take(i as int), for_blogs),
        decreases entries.len() - i,
    {
        let ghost before = names@;
        if let Some(entry) = &entries[i] {
            if let Some(true) = entry.is_dir {
                if entry.has_theme_css {
                    if let Some(name) = &entry.name {
                        if starts_with(name, "blog-") == for_blogs {
                            names.push(name.clone());
                        }
                    }
                }
            }
        }
        proof {
            let entry = entries@[i as int];
            assert(entries@.take(i + 1) =~= entries@.take(i as int).push(entry));
            filter_push(entries@.take(i as int), entry, holds_theme(for_blogs));
            if holds_theme(for_blogs)(entry) {
                assert(theme_names(entries@.take(i + 1), for_blogs) =~= before.push(
                    entry->0.name->0,
                ));
            }
        }
        i += 1;
    }
    assert(entries@.take(i as int) =~= entries@);
    names
}

impl Instance {
    /// The names of the instance themes: each is a directory with a `theme.css`, and its name does
    /// not begin with `blog-`. `listing` is the directory of style sheets as it was read, with
    /// `None` for an entry that could not be.
    pub fn list_themes(listing: Result<Vec<Option<DirEntry>>, Error>) -> (themes: Result<
        Vec<String>,
        Error,
    >)
        ensures
            match listing {
                Ok(entries) => themes matches Ok(names) && names@ == theme_names(entries@, false),
                Err(e) => themes == Err::<Vec<String>, Error>(e),
            },
    {
        match listing {
            Ok(entries) => Ok(collect_themes(&entries, false)),
            Err(e) => Err(e),
        }
    }

    /// The names of the blog themes: each is a directory with a `theme.css`, and its name begins
    /// with `blog-`. `listing` is the directory of style sheets as it was read, with `None` for an
    /// entry that could not be.
    pub fn list_blog_themes(listing: Result<Vec<Option<DirEntry>>, Error>) -> (themes: Result<
        Vec<String>,
        Error,
    >)
        ensures
            match listing {
                Ok(entries) => themes matches Ok(names) && names@ == theme_names(entries@, true),
                Err(e) => themes == Err::<Vec<String>, Error>(e),
            },
    {
        match listing {
            Ok(entries) => Ok(collect_themes(&entries, true)),
            Err(e) => Err(e),
        }
    }
}

} // verus!
