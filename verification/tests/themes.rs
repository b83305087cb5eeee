use plume_models::error::Error;
use plume_models::instance::Instance;
use plume_models::themes::DirEntry;

fn entry(is_dir: Option<bool>, name: Option<&str>, has_theme_css: bool) -> Option<DirEntry> {
    Some(DirEntry { is_dir, name: name.map(str::to_owned), has_theme_css })
}

fn listing() -> Vec<Option<DirEntry>> {
    vec![
        entry(Some(true), Some("default"), true),
        entry(Some(true), Some("blog-default"), true),
        entry(Some(false), Some("feather.css"), false),
        entry(Some(true), Some("images"), false),
        None,
        entry(None, Some("unknown"), true),
        entry(Some(true), None, true),
        entry(Some(true), Some("dark"), true),
        entry(Some(true), Some("blog"), true),
        entry(Some(true), Some("blog-"), true),
        entry(Some(true), Some("my-blog-theme"), true),
    ]
}

#[test]
fn instance_themes() {
    assert_eq!(
        Instance::list_themes(Ok(listing())),
        Ok(vec![
            "default".to_owned(),
            "dark".to_owned(),
            "blog".to_owned(),
            "my-blog-theme".to_owned(),
        ])
    );
}

#[test]
fn blog_themes() {
    assert_eq!(
        Instance::list_blog_themes(Ok(listing())),
        Ok(vec!["blog-default".to_owned(), "blog-".to_owned()])
    );
}

#[test]
fn unreadable_directory() {
    assert_eq!(Instance::list_themes(Err(Error::Io)), Err(Error::Io));
    assert_eq!(Instance::list_blog_themes(Err(Error::Io)), Err(Error::Io));
    assert_eq!(Instance::list_themes(Ok(vec![])), Ok(vec![]));
}

#[test]
fn every_theme_is_in_one_list() {
    let mut names = Instance::list_themes(Ok(listing())).unwrap();
    names.extend(Instance::list_blog_themes(Ok(listing())).unwrap());
    names.sort();
    assert_eq!(names, vec!["blog", "blog-", "blog-default", "dark", "default", "my-blog-theme"]);
}
