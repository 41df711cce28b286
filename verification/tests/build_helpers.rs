use nordvpn_viking::build_helpers::manifest::fill;
use nordvpn_viking::build_helpers::{
    File, ForeignDependenciesDetail, ForeignDependency, Found, GResource, GResourceDetail,
    GResourceFilesDetail, GResources, GResourcesDetail, Preprocess,
};

fn found(dir: &str, name: &str) -> Found {
    Found { path: format!("{}/{}", dir, name), file_name: name.to_owned() }
}

fn images() -> GResourceFilesDetail {
    GResourceFilesDetail {
        glob: "assets/foo/baz_*.png".to_owned(),
        alias: Some("images/{}".to_owned()),
        compressed: Some(true),
        preprocess: Some(Preprocess::ToPixData),
    }
}

fn pictures() -> GResourceFilesDetail {
    GResourceFilesDetail {
        glob: "assets/bar/baz_*.png".to_owned(),
        alias: Some("pictures/{}".to_owned()),
        compressed: None,
        preprocess: None,
    }
}

#[test]
fn expand_fills_the_alias_of_each_file() {
    let matches: Vec<Found> = ["baz_1.png", "baz_2.png", "baz_3.png"]
        .iter()
        .map(|name| found("tests/files/assets/foo", name))
        .collect();
    let expected: Vec<File> = ["baz_1.png", "baz_2.png", "baz_3.png"]
        .iter()
        .map(|name| {
            File::new(
                format!("tests/files/assets/foo/{}", name),
                Some(format!("images/{}", name)),
                Some(true),
                Some(Preprocess::ToPixData),
            )
        })
        .collect();
    assert_eq!(images().expand(&matches), expected);
}

#[test]
fn expand_without_alias_or_files() {
    let detail = GResourceFilesDetail { alias: None, ..pictures() };
    assert_eq!(
        detail.expand(&vec![found("a", "b.png")]),
        vec![File::new("a/b.png".to_owned(), None, None, None)]
    );
    assert_eq!(pictures().expand(&vec![]), vec![]);
}

#[test]
fn fill_puts_the_name_in_each_place() {
    assert_eq!(fill("images/{}", "a.png"), "images/a.png");
    assert_eq!(fill("{}", "a"), "a");
    assert_eq!(fill("{}{}", "ab"), "abab");
    assert_eq!(fill("{{}}", "x"), "{x}");
    assert_eq!(fill("no place", "x"), "no place");
    assert_eq!(fill("", "x"), "");
    assert_eq!(fill("{", "x"), "{");
    assert_eq!(fill("a{}b{}c{", "-"), "a-b-c{");
    assert_eq!(fill("{}", "{}"), "{}");
}

#[test]
fn to_gresource_puts_the_globs_in_a_row() {
    let detail =
        GResourceDetail { prefix: "/com/example/res".to_owned(), files: vec![images(), pictures()] };
    let matches = vec![vec![found("foo", "baz_1.png")], vec![found("bar", "baz_1.png"), found("bar", "baz_2.png")]];
    let expected = GResource::from_iter(
        "/com/example/res".to_owned(),
        vec![
            File::new(
                "foo/baz_1.png".to_owned(),
                Some("images/baz_1.png".to_owned()),
                Some(true),
                Some(Preprocess::ToPixData),
            ),
            File::new("bar/baz_1.png".to_owned(), Some("pictures/baz_1.png".to_owned()), None, None),
            File::new("bar/baz_2.png".to_owned(), Some("pictures/baz_2.png".to_owned()), None, None),
        ],
    );
    assert_eq!(detail.to_gresource(&matches), expected);
    let only_first = detail.to_gresource(&vec![vec![found("foo", "baz_1.png")]]);
    assert_eq!(only_first.files.len(), 1);
    assert_eq!(detail.to_gresource(&vec![]), GResource::new("/com/example/res".to_owned()));
}

#[test]
fn to_gresources_keeps_the_order_of_the_entries() {
    let detail = GResourcesDetail::from_entries(vec![
        ("icons".to_owned(), GResourceDetail { prefix: "/a".to_owned(), files: vec![images()] }),
        ("ui".to_owned(), GResourceDetail { prefix: "/b".to_owned(), files: vec![] }),
    ])
    .unwrap();
    assert_eq!(detail.entries().len(), 2);
    let resources = detail.to_gresources(&vec![vec![vec![found("foo", "baz_1.png")]]]);
    assert_eq!(
        resources,
        GResources::from_iter(vec![
            GResource::from_iter(
                "/a".to_owned(),
                vec![File::new(
                    "foo/baz_1.png".to_owned(),
                    Some("images/baz_1.png".to_owned()),
                    Some(true),
                    Some(Preprocess::ToPixData)
                )]
            ),
            GResource::new("/b".to_owned()),
        ])
    );
    assert_eq!(
        GResourcesDetail::from_entries(vec![]).unwrap().to_gresources(&vec![]),
        GResources::new()
    );
}

#[test]
fn treatments_have_their_words() {
    assert_eq!(Preprocess::XmlStripBlanks.to_string(), "xml-stripblanks");
    assert_eq!(Preprocess::ToPixData.to_string(), "to-pixdata");
    assert_eq!(Preprocess::from_str("xml-stripblanks"), Some(Preprocess::XmlStripBlanks));
    assert_eq!(Preprocess::from_str("to-pixdata"), Some(Preprocess::ToPixData));
    assert_eq!(Preprocess::from_str("To-Pixdata"), None);
    assert_eq!(Preprocess::from_str(""), None);
}

#[test]
fn dependencies_are_cloned_under_their_slug() {
    let dependency = ForeignDependency {
        git: "https://github.com/example/Icon_Pack.git".to_owned(),
        commit: "0123456789abcdef0123456789abcdef01234567".to_owned(),
        copy: vec![("icons/*.svg".to_owned(), "assets/icons".to_owned())],
    };
    assert_eq!(dependency.clone_path(), "https-github-com-example-icon-pack-git");
    assert!(dependency.update(true, true));
    assert!(dependency.update(true, false));
    assert!(dependency.update(false, false));
    assert!(!dependency.update(false, true));
}

fn entry(name: &str) -> (String, GResourceDetail) {
    (name.to_owned(), GResourceDetail { prefix: format!("/{}", name), files: vec![] })
}

#[test]
fn entries_come_in_the_order_of_their_names() {
    assert!(GResourcesDetail::from_entries(vec![entry("a"), entry("b"), entry("c")]).is_some());
    assert!(GResourcesDetail::from_entries(vec![entry("a"), entry("ab"), entry("b")]).is_some());
    assert!(GResourcesDetail::from_entries(vec![entry("B"), entry("a")]).is_some());
    assert!(GResourcesDetail::from_entries(vec![entry("a")]).is_some());
    assert_eq!(GResourcesDetail::from_entries(vec![entry("b"), entry("a")]), None);
    assert_eq!(GResourcesDetail::from_entries(vec![entry("a"), entry("a")]), None);
    assert_eq!(GResourcesDetail::from_entries(vec![entry("a"), entry("c"), entry("b")]), None);
    assert_eq!(GResourcesDetail::from_entries(vec![entry("ab"), entry("a")]), None);
}

fn dependency(name: &str) -> (String, ForeignDependency) {
    (
        name.to_owned(),
        ForeignDependency {
            git: format!("https://example.com/{}.git", name),
            commit: "0123456789abcdef0123456789abcdef01234567".to_owned(),
            copy: vec![],
        },
    )
}

#[test]
fn update_all_says_which_files_to_copy() {
    let detail =
        ForeignDependenciesDetail::from_entries(vec![dependency("a"), dependency("b"), dependency("c")])
            .unwrap();
    assert_eq!(detail.entries().len(), 3);
    assert_eq!(
        detail.update_all(&vec![(true, true), (false, true), (false, false)]),
        vec![true, false, true]
    );
    assert_eq!(detail.update_all(&vec![(true, false)]), vec![true, false, false]);
    assert_eq!(ForeignDependenciesDetail::from_entries(vec![dependency("b"), dependency("a")]), None);
    assert_eq!(
        ForeignDependenciesDetail::from_entries(vec![]).unwrap().update_all(&vec![(true, true)]),
        Vec::<bool>::new()
    );
}
